use vga_console::Color;
use vga_console::ColorCode;
use vga_console::Kharakter;
use vga_console::VGAWriter;

const HEIGHT: usize = 25;
const WIDTH: usize = 80;
const BLANK_ATTR: u8 = 0x0b;

fn all_colors() -> [Color; 16] {
    [
        Color::Black,
        Color::Blue,
        Color::Green,
        Color::Cyan,
        Color::Red,
        Color::Magenta,
        Color::Brown,
        Color::LightGray,
        Color::DarkGray,
        Color::LightBlue,
        Color::LightGreen,
        Color::LightCyan,
        Color::LightRed,
        Color::Pink,
        Color::Yellow,
        Color::White,
    ]
}

fn grid_snapshot(w: &VGAWriter) -> Vec<(u8, u8)> {
    let mut cells: Vec<(u8, u8)> = Vec::new();
    for row in 0..HEIGHT {
        for col in 0..WIDTH {
            let k: Kharakter = w.read_cell(row, col);
            cells.push((k.kharakter, k.color.0));
        }
    }
    cells
}

#[test]
fn fresh_writer_is_blank() {
    let w = VGAWriter::new();
    assert_eq!(w.column(), 0);
    assert_eq!(w.current_color().0, BLANK_ATTR);
    for cell in grid_snapshot(&w) {
        assert_eq!(cell, (b' ', BLANK_ATTR));
    }
}

#[test]
fn column_bound_over_byte_sequence() {
    let mut w = VGAWriter::new();
    let mut bytes: Vec<u8> = Vec::new();
    for _ in 0..WIDTH + 5 {
        bytes.push(b'x');
    }
    bytes.extend([b'\r', 0x07, b'\n', 0x00, 0xff, b'A']);
    for _ in 0..90 {
        bytes.push(b'y');
    }
    for b in bytes {
        w.write_byte(b);
        assert!(w.column() <= WIDTH);
    }
}

#[test]
fn wrap_equivalence() {
    let mut a = VGAWriter::new();
    for i in 0..WIDTH + 1 {
        a.write_byte(b'a' + (i % 26) as u8);
    }
    let mut b = VGAWriter::new();
    for i in 0..WIDTH {
        b.write_byte(b'a' + (i % 26) as u8);
    }
    b.write_byte(b'\n');
    b.write_byte(b'a' + ((WIDTH) % 26) as u8);
    assert_eq!(a.column(), b.column());
    assert_eq!(grid_snapshot(&a), grid_snapshot(&b));
}

#[test]
fn scroll_shifts_rows_and_blanks_bottom() {
    let mut w = VGAWriter::new();
    // Fill each row with a distinct marker: after 24 (marker, newline)
    // pairs plus one final marker, row r holds marker r at column 0.
    for r in 0..HEIGHT {
        w.write_byte(b'A' + r as u8);
        if r + 1 < HEIGHT {
            w.write_byte(b'\n');
        }
    }
    for r in 0..HEIGHT {
        assert_eq!(w.read_cell(r, 0).kharakter, b'A' + r as u8);
    }
    // One scroll: each row takes the content of the row below it.
    w.write_byte(b'\n');
    for r in 0..HEIGHT - 1 {
        assert_eq!(w.read_cell(r, 0).kharakter, b'A' + (r + 1) as u8);
    }
    for col in 0..WIDTH {
        let k = w.read_cell(HEIGHT - 1, col);
        assert_eq!((k.kharakter, k.color.0), (b' ', BLANK_ATTR));
    }
    assert_eq!(w.column(), 0);
}

#[test]
fn color_roundtrip_all_pairs() {
    for &fore in all_colors().iter() {
        for &back in all_colors().iter() {
            let cc = ColorCode::new(fore, back);
            assert_eq!(cc.0, (back.code() << 4) | fore.code());
            let (f, b) = cc.decode();
            assert_eq!(f, fore);
            assert_eq!(b, back);
        }
    }
}

#[test]
fn with_blink_sets_exactly_top_bit() {
    for &fore in all_colors().iter() {
        for &back in all_colors().iter() {
            let plain = ColorCode::new(fore, back).as_byte();
            let no_blink = ColorCode::with_blink(fore, back, false).as_byte();
            let blink = ColorCode::with_blink(fore, back, true).as_byte();
            assert_eq!(no_blink, plain);
            assert_eq!(blink, plain | 0x80);
            assert_eq!(blink & 0x7f, plain & 0x7f);
            assert_eq!(blink & 0x80, 0x80);
        }
    }
}

#[test]
fn substitution_renders_placeholder() {
    let mut w = VGAWriter::new();
    w.set_color(ColorCode::new(Color::White, Color::Red));
    let attr = ColorCode::new(Color::White, Color::Red).0;
    for (i, b) in [0x00u8, 0x19, 0x7f, 0xff].iter().enumerate() {
        let before = w.column();
        w.write_byte(*b);
        assert_eq!(w.column(), before + 1);
        let k = w.read_cell(HEIGHT - 1, i);
        assert_eq!((k.kharakter, k.color.0), (b'?', attr));
    }
}

#[test]
fn write_string_substitutes_non_ascii() {
    let mut w = VGAWriter::new();
    w.write_string("a\u{00e9}b");
    assert_eq!(w.read_cell(HEIGHT - 1, 0).kharakter, b'a');
    // The two UTF-8 bytes of the accented letter each render as '?'.
    assert_eq!(w.read_cell(HEIGHT - 1, 1).kharakter, b'?');
    assert_eq!(w.read_cell(HEIGHT - 1, 2).kharakter, b'?');
    assert_eq!(w.read_cell(HEIGHT - 1, 3).kharakter, b'b');
    assert_eq!(w.column(), 4);
}

#[test]
fn end_to_end_hello() {
    let mut w = VGAWriter::new();
    w.write_string("Hello, world!");
    assert_eq!(w.column(), 13);
    for (i, b) in "Hello, world!".bytes().enumerate() {
        let k = w.read_cell(HEIGHT - 1, i);
        assert_eq!((k.kharakter, k.color.0), (b, BLANK_ATTR));
    }
    w.set_color(ColorCode::new(Color::Yellow, Color::Blue));
    w.write_string("!");
    let k = w.read_cell(HEIGHT - 1, 13);
    assert_eq!(k.kharakter, b'!');
    assert_eq!(k.color.0, (Color::Blue.code() << 4) | Color::Yellow.code());
    assert_eq!(w.column(), 14);
    // The rest of the grid is unaffected.
    for row in 0..HEIGHT {
        for col in 0..WIDTH {
            if row == HEIGHT - 1 && col < 14 {
                continue;
            }
            let k = w.read_cell(row, col);
            assert_eq!((k.kharakter, k.color.0), (b' ', BLANK_ATTR));
        }
    }
}

#[test]
fn newline_flood_leaves_grid_blank() {
    let mut w = VGAWriter::new();
    for _ in 0..HEIGHT {
        w.write_byte(b'\n');
    }
    assert_eq!(w.column(), 0);
    for cell in grid_snapshot(&w) {
        assert_eq!(cell, (b' ', BLANK_ATTR));
    }
}

#[test]
fn carriage_return_resets_column() {
    let mut w = VGAWriter::new();
    w.write_string("abc");
    assert_eq!(w.column(), 3);
    w.write_byte(b'\r');
    assert_eq!(w.column(), 0);
    // The glyphs written before the carriage return are still there.
    assert_eq!(w.read_cell(HEIGHT - 1, 2).kharakter, b'c');
    w.write_byte(b'X');
    assert_eq!(w.read_cell(HEIGHT - 1, 0).kharakter, b'X');
}

#[test]
fn backspace_steps_back_and_stops_at_zero() {
    let mut w = VGAWriter::new();
    w.write_string("ab");
    w.write_byte(0x07);
    assert_eq!(w.column(), 1);
    w.write_byte(0x07);
    w.write_byte(0x07);
    assert_eq!(w.column(), 0);
    // Backspace never writes to the grid.
    assert_eq!(w.read_cell(HEIGHT - 1, 0).kharakter, b'a');
    assert_eq!(w.read_cell(HEIGHT - 1, 1).kharakter, b'b');
}

#[test]
fn wrap_writes_on_fresh_bottom_row() {
    let mut w = VGAWriter::new();
    for _ in 0..WIDTH {
        w.write_byte(b'z');
    }
    assert_eq!(w.column(), WIDTH);
    w.write_byte(b'Q');
    assert_eq!(w.column(), 1);
    assert_eq!(w.read_cell(HEIGHT - 1, 0).kharakter, b'Q');
    // The full row of 'z' moved up by the implicit scroll.
    for col in 0..WIDTH {
        assert_eq!(w.read_cell(HEIGHT - 2, col).kharakter, b'z');
    }
}
