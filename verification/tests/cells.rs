use vga_buffer::cell::{glyph, LINE_FEED, UNKNOWN_GLYPH};
use vga_buffer::{Color, ColorCode, ScreenChar};

#[test]
fn cell_bytes_are_character_then_attribute() {
    let cell = ScreenChar { ascii_char: b'H', color: ColorCode::new(Color::Yellow, Color::Blue) };
    assert_eq!(cell.to_bytes(), [0x48, 0x1e]);
}

#[test]
fn cell_round_trips_through_its_bytes() {
    for character in [0u8, b' ', b'A', b'~', 0x7f, 0xfe, 0xff] {
        for attribute in [0u8, 0x02, 0x0f, 0x61, 0xf0, 0xff] {
            let cell = ScreenChar::from_bytes([character, attribute]);
            assert_eq!(cell.ascii_char, character);
            assert_eq!(cell.color, ColorCode(attribute));
            assert_eq!(cell.to_bytes(), [character, attribute]);
            assert_eq!(ScreenChar::from_bytes(cell.to_bytes()), cell);
        }
    }
}

#[test]
fn blank_cell_is_all_zero() {
    let blank = ScreenChar::blank();
    assert_eq!(blank.ascii_char, 0);
    assert_eq!(blank.color, ColorCode(0));
    assert_eq!(blank.to_bytes(), [0, 0]);
}

#[test]
fn glyph_keeps_printable_ascii() {
    for byte in 0x20..=0x7eu8 {
        assert_eq!(glyph(byte), byte);
    }
    assert_eq!(glyph(b' '), b' ');
    assert_eq!(glyph(b'~'), b'~');
}

#[test]
fn glyph_keeps_the_line_feed() {
    assert_eq!(LINE_FEED, b'\n');
    assert_eq!(glyph(b'\n'), b'\n');
}

#[test]
fn glyph_replaces_every_other_byte() {
    assert_eq!(UNKNOWN_GLYPH, 0xfe);
    for byte in 0..=255u8 {
        let printable = (0x20..=0x7e).contains(&byte);
        if !printable && byte != b'\n' {
            assert_eq!(glyph(byte), 0xfe);
        }
    }
    assert_eq!(glyph(0x00), 0xfe);
    assert_eq!(glyph(0x09), 0xfe);
    assert_eq!(glyph(0x0d), 0xfe);
    assert_eq!(glyph(0x1f), 0xfe);
    assert_eq!(glyph(0x7f), 0xfe);
    assert_eq!(glyph(0x80), 0xfe);
    assert_eq!(glyph(0xfe), 0xfe);
    assert_eq!(glyph(0xff), 0xfe);
}
