use heimdall::interrupts::{
    apply_key, decode_scancode, handle_scancode, on_timer_tick, timer_color, InterruptIndex,
    KeyDecoder, KeyInput, ARROW_LEFT_CODE, ARROW_RIGHT_CODE, FIRST_COLOR_TICK, PIC_1_OFFSET,
    PIC_2_OFFSET,
};
use heimdall::gdt::{DOUBLE_FAULT_IST_INDEX, DOUBLE_FAULT_STACK_SIZE};
use heimdall::vga_buffer::{Buffer, Color, ColorCode, ScreenChar, Writer, BUFFER_SIZE};

fn writer_at(row: usize, col: usize) -> Writer {
    let blank = ScreenChar {
        ascii_character: b' ',
        color_code: ColorCode::new(Color::LightGray, Color::Black),
    };
    Writer {
        column_position: col,
        row_position: row,
        color_code: ColorCode::new(Color::Yellow, Color::Black),
        buffer: Buffer::from_cells([blank; BUFFER_SIZE]),
        hardware_cursor: 0,
    }
}

#[test]
fn interrupt_vectors_follow_the_master_pic() {
    assert_eq!(PIC_1_OFFSET, 32);
    assert_eq!(PIC_2_OFFSET, 40);
    assert_eq!(InterruptIndex::Timer.as_u8(), 32);
    assert_eq!(InterruptIndex::Keyboard.as_u8(), 33);
}

#[test]
fn double_fault_stack_layout() {
    assert_eq!(DOUBLE_FAULT_IST_INDEX, 0);
    assert_eq!(DOUBLE_FAULT_STACK_SIZE, 20480);
}

#[test]
fn timer_colors_cycle_and_skip_black() {
    assert_eq!(FIRST_COLOR_TICK, 1);
    assert_eq!(timer_color(0), 1);
    assert_eq!(timer_color(1), 2);
    assert_eq!(timer_color(14), 15);
    assert_eq!(timer_color(15), 1);
    assert_eq!(timer_color(255), 1);
    for t in 0..=255u8 {
        let c = timer_color(t);
        assert!((1..=15).contains(&c));
    }
}

#[test]
fn timer_tick_paints_the_name() {
    let mut w = writer_at(0, 0);
    w.write_string("Inicializando o Kernel Heimdall...");
    on_timer_tick(&mut w, 3);
    for col in 23..31 {
        assert_eq!(w.buffer.read(0, col).color_code, ColorCode::new(Color::Red, Color::Black));
    }
    assert_eq!(w.buffer.read(0, 23).ascii_character, b'H');
    assert_eq!(w.buffer.read(0, 0).color_code, ColorCode::new(Color::Yellow, Color::Black));
}

#[test]
fn keys_act_on_the_console() {
    let mut w = writer_at(0, 0);
    apply_key(&mut w, KeyInput::Unicode('h'));
    apply_key(&mut w, KeyInput::Unicode('i'));
    assert_eq!(w.column_position, 2);
    apply_key(&mut w, KeyInput::Unicode('\u{8}'));
    assert_eq!(w.column_position, 1);
    assert_eq!(w.buffer.read(0, 1).ascii_character, b' ');
    apply_key(&mut w, KeyInput::RawKey(ARROW_LEFT_CODE));
    assert_eq!(w.column_position, 0);
    apply_key(&mut w, KeyInput::RawKey(ARROW_RIGHT_CODE));
    assert_eq!(w.column_position, 1);
    apply_key(&mut w, KeyInput::RawKey(pc_keyboard::KeyCode::LShift as u8));
    apply_key(&mut w, KeyInput::RawKey(pc_keyboard::KeyCode::ArrowUp as u8));
    assert_eq!(w.column_position, 1);
    apply_key(&mut w, KeyInput::Unicode('\n'));
    assert_eq!((w.row_position, w.column_position), (1, 0));
}

#[test]
fn scancodes_print_letters_and_erase() {
    let mut kb = KeyDecoder::new();
    let mut w = writer_at(0, 0);
    // Set 1 make and break codes of 'A', then of 'B'.
    for sc in [0x1E, 0x9E, 0x30, 0xB0] {
        handle_scancode(&mut kb, &mut w, sc);
    }
    assert_eq!(w.buffer.read(0, 0).ascii_character, b'a');
    assert_eq!(w.buffer.read(0, 1).ascii_character, b'b');
    assert_eq!(w.column_position, 2);
    // Backspace key.
    handle_scancode(&mut kb, &mut w, 0x0E);
    handle_scancode(&mut kb, &mut w, 0x8E);
    assert_eq!(w.column_position, 1);
    assert_eq!(w.buffer.read(0, 1).ascii_character, b' ');
}

#[test]
fn extended_scancode_is_decoded_from_its_second_offer() {
    // The left arrow is 0xE0 0x4B. The handler offers each completing byte
    // twice and decodes the second event: 0x4B alone is keypad 4, and with
    // Num Lock on that is the digit '4'.
    let mut kb = KeyDecoder::new();
    let mut w = writer_at(0, 5);
    handle_scancode(&mut kb, &mut w, 0xE0);
    handle_scancode(&mut kb, &mut w, 0x4B);
    assert_eq!(w.buffer.read(0, 5).ascii_character, b'4');
    assert_eq!(w.column_position, 6);
}

#[test]
fn arrow_codes_are_the_key_codes_of_the_arrows() {
    assert_eq!(ARROW_LEFT_CODE, pc_keyboard::KeyCode::ArrowLeft as u8);
    assert_eq!(ARROW_RIGHT_CODE, pc_keyboard::KeyCode::ArrowRight as u8);
}

#[test]
fn first_timer_tick_paints_green() {
    assert_eq!(timer_color(FIRST_COLOR_TICK), 2);
    assert_eq!(Color::from_u8(timer_color(FIRST_COLOR_TICK)), Some(Color::Green));
}

#[test]
fn escape_prints_a_block() {
    let mut kb = KeyDecoder::new();
    let mut w = writer_at(0, 0);
    handle_scancode(&mut kb, &mut w, 0x01);
    assert_eq!(w.buffer.read(0, 0).ascii_character, 0xfe);
    assert_eq!(w.column_position, 1);
}

#[test]
fn decode_scancode_yields_keys_and_nothing_on_release() {
    let mut kb = KeyDecoder::new();
    assert_eq!(decode_scancode(&mut kb, 0x1E), Some(KeyInput::Unicode('a')));
    assert_eq!(decode_scancode(&mut kb, 0x9E), None);
    assert_eq!(decode_scancode(&mut kb, 0xE0), None);
}

#[test]
fn keys_without_effect_leave_the_console_alone() {
    // F1 press, left Shift press, 'A' release on a fresh decoder.
    for sc in [0x3B, 0x2A, 0x9E] {
        let mut kb = KeyDecoder::new();
        let mut w = writer_at(3, 7);
        w.hardware_cursor = 247;
        handle_scancode(&mut kb, &mut w, sc);
        assert_eq!((w.row_position, w.column_position, w.hardware_cursor), (3, 7, 247));
        for col in 0..80 {
            assert_eq!(w.buffer.read(3, col).ascii_character, b' ');
        }
    }
}

#[test]
fn writer_well_formedness_check() {
    assert!(writer_at(24, 80).is_wf());
    assert!(!writer_at(25, 0).is_wf());
    assert!(!writer_at(0, 81).is_wf());
    let mut w = writer_at(0, 0);
    w.hardware_cursor = 2001;
    assert!(!w.is_wf());
}
