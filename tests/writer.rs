use vga_text::color::{Color, ColorCode};
use vga_text::vga_buffer::{print_data, ScreenChar, Writer, BUFFER_HEIGHT, BUFFER_WIDTH, REPLACEMENT};

fn cell(character: u8, color: ColorCode) -> ScreenChar {
    ScreenChar { character, color_code: color }
}

fn bottom_row(w: &Writer) -> Vec<ScreenChar> {
    (0..BUFFER_WIDTH).map(|c| w.char_at(BUFFER_HEIGHT - 1, c)).collect()
}

fn row_is_blank(w: &Writer, row: usize, color: ColorCode) -> bool {
    (0..BUFFER_WIDTH).all(|c| w.char_at(row, c) == cell(b' ', color))
}

#[test]
fn color_code_packs_background_high() {
    assert_eq!(ColorCode::new(Color::Yellow, Color::Black).0, 0x0e);
    assert_eq!(ColorCode::new(Color::White, Color::Blue).0, 0x1f);
    assert_eq!(ColorCode::new(Color::Black, Color::White).0, 0xf0);
    assert_eq!(ColorCode::new(Color::LightGreen, Color::Red).0, 0x4a);
    assert_eq!(Color::Pink.index(), 13);
}

#[test]
fn new_writer_is_blank() {
    let w = Writer::new(Color::LightGray, Color::Black);
    let color = ColorCode::new(Color::LightGray, Color::Black);
    assert_eq!(w.color_code(), color);
    assert_eq!(w.column_position(), 0);
    for row in 0..BUFFER_HEIGHT {
        assert!(row_is_blank(&w, row, color));
    }
}

#[test]
fn short_line_fills_bottom_row_in_order() {
    let mut w = Writer::new(Color::Green, Color::Black);
    let color = w.color_code();
    w.write_string("HELLO");
    assert_eq!(w.column_position(), 5);
    let row = bottom_row(&w);
    for (i, b) in b"HELLO".iter().enumerate() {
        assert_eq!(row[i], cell(*b, color));
    }
    assert_eq!(row[5], cell(b' ', color));
    for r in 0..BUFFER_HEIGHT - 1 {
        assert!(row_is_blank(&w, r, color));
    }
}

#[test]
fn full_row_of_width_bytes_does_not_scroll() {
    let mut w = Writer::new(Color::Cyan, Color::Black);
    let color = w.color_code();
    for _ in 0..BUFFER_WIDTH {
        w.write_byte(b'x');
    }
    assert_eq!(w.column_position(), BUFFER_WIDTH);
    assert!(bottom_row(&w).iter().all(|c| *c == cell(b'x', color)));
    assert!(row_is_blank(&w, BUFFER_HEIGHT - 2, color));
}

#[test]
fn eighty_one_bytes_scroll_once() {
    let mut w = Writer::new(Color::White, Color::Blue);
    let color = w.color_code();
    let bytes: Vec<u8> = (0..=BUFFER_WIDTH).map(|i| b'A' + (i % 26) as u8).collect();
    for b in &bytes {
        w.write_byte(*b);
    }
    assert_eq!(w.column_position(), 1);
    for c in 0..BUFFER_WIDTH {
        assert_eq!(w.char_at(BUFFER_HEIGHT - 2, c), cell(bytes[c], color));
    }
    assert_eq!(w.char_at(BUFFER_HEIGHT - 1, 0), cell(bytes[BUFFER_WIDTH], color));
    for c in 1..BUFFER_WIDTH {
        assert_eq!(w.char_at(BUFFER_HEIGHT - 1, c), cell(b' ', color));
    }
    for r in 0..BUFFER_HEIGHT - 2 {
        assert!(row_is_blank(&w, r, color));
    }
}

#[test]
fn newline_scrolls_and_resets_column() {
    let mut w = Writer::new(Color::Red, Color::Black);
    let color = w.color_code();
    w.write_string("abc");
    assert_eq!(w.column_position(), 3);
    w.write_byte(b'\n');
    assert_eq!(w.column_position(), 0);
    assert_eq!(w.char_at(BUFFER_HEIGHT - 2, 0), cell(b'a', color));
    assert_eq!(w.char_at(BUFFER_HEIGHT - 2, 2), cell(b'c', color));
    assert!(row_is_blank(&w, BUFFER_HEIGHT - 1, color));

    w.write_string("\n");
    assert_eq!(w.column_position(), 0);
    assert_eq!(w.char_at(BUFFER_HEIGHT - 3, 1), cell(b'b', color));
    assert!(row_is_blank(&w, BUFFER_HEIGHT - 2, color));
}

#[test]
fn newline_at_full_row_scrolls_once() {
    let mut w = Writer::new(Color::Brown, Color::Black);
    let color = w.color_code();
    for _ in 0..BUFFER_WIDTH {
        w.write_byte(b'z');
    }
    w.write_byte(b'\n');
    assert_eq!(w.column_position(), 0);
    assert!((0..BUFFER_WIDTH).all(|c| w.char_at(BUFFER_HEIGHT - 2, c) == cell(b'z', color)));
    assert!(row_is_blank(&w, BUFFER_HEIGHT - 1, color));
    assert!(row_is_blank(&w, BUFFER_HEIGHT - 3, color));
}

#[test]
fn cells_keep_color_after_change() {
    let mut w = Writer::new(Color::Yellow, Color::Black);
    let first = w.color_code();
    w.write_string("ab");
    w.set_color(Color::LightBlue, Color::Black);
    let second = w.color_code();
    assert_eq!(second.0, 0x09);
    assert_eq!(w.column_position(), 2);
    w.write_string("cd");
    assert_eq!(w.char_at(BUFFER_HEIGHT - 1, 0), cell(b'a', first));
    assert_eq!(w.char_at(BUFFER_HEIGHT - 1, 1), cell(b'b', first));
    assert_eq!(w.char_at(BUFFER_HEIGHT - 1, 2), cell(b'c', second));
    assert_eq!(w.char_at(BUFFER_HEIGHT - 1, 3), cell(b'd', second));
    w.write_byte(b'\n');
    assert!(row_is_blank(&w, BUFFER_HEIGHT - 1, second));
    assert_eq!(w.char_at(BUFFER_HEIGHT - 2, 0), cell(b'a', first));
}

#[test]
fn unsupported_bytes_become_replacement() {
    let mut w = Writer::new(Color::White, Color::Black);
    let color = w.color_code();
    w.write_string("a\tb\u{e9}~\u{7f}");
    // 'a', tab, 'b', two bytes of 'é', '~', DEL
    assert_eq!(w.column_position(), 7);
    let expected = [b'a', REPLACEMENT, b'b', REPLACEMENT, REPLACEMENT, b'~', REPLACEMENT];
    for (i, b) in expected.iter().enumerate() {
        assert_eq!(w.char_at(BUFFER_HEIGHT - 1, i), cell(*b, color));
    }
}

#[test]
fn write_byte_takes_bytes_as_they_are() {
    let mut w = Writer::new(Color::White, Color::Black);
    let color = w.color_code();
    w.write_byte(REPLACEMENT);
    w.write_byte(b' ');
    assert_eq!(w.column_position(), 2);
    assert_eq!(w.char_at(BUFFER_HEIGHT - 1, 0), cell(0xfe, color));
}

#[test]
fn polyglot_greeting_fits_one_row() {
    let text = "THE POLYGLOT PROGRAMMER OS";
    let mut w = Writer::new(Color::Yellow, Color::Black);
    let color = w.color_code();
    w.write_string(text);
    assert_eq!(w.column_position(), text.len());
    for (i, b) in text.bytes().enumerate() {
        assert_eq!(w.char_at(BUFFER_HEIGHT - 1, i), cell(b, color));
    }
    for c in text.len()..BUFFER_WIDTH {
        assert_eq!(w.char_at(BUFFER_HEIGHT - 1, c), cell(b' ', color));
    }
    for r in 0..BUFFER_HEIGHT - 1 {
        assert!(row_is_blank(&w, r, color));
    }
}

#[test]
fn print_data_writes_greeting_in_yellow() {
    let w = print_data();
    let color = ColorCode::new(Color::Yellow, Color::Black);
    assert_eq!(w.color_code(), color);
    let text = b"THE POLYGLOT PROGRAMMER OS";
    assert_eq!(w.column_position(), text.len());
    for (i, b) in text.iter().enumerate() {
        assert_eq!(w.char_at(BUFFER_HEIGHT - 1, i), cell(*b, color));
    }
    for r in 0..BUFFER_HEIGHT - 1 {
        assert!(row_is_blank(&w, r, color));
    }
}

#[test]
fn many_lines_keep_only_the_last_rows() {
    let mut w = Writer::new(Color::Magenta, Color::Black);
    let color = w.color_code();
    for i in 0..30u8 {
        w.write_byte(b'a' + (i % 26));
        w.write_byte(b'\n');
    }
    // The last line written ('d', for i = 29) sits just above the blank bottom row.
    assert_eq!(w.char_at(BUFFER_HEIGHT - 2, 0), cell(b'a' + 29 % 26, color));
    assert_eq!(w.char_at(0, 0), cell(b'a' + 6, color));
    assert!(row_is_blank(&w, BUFFER_HEIGHT - 1, color));
}
