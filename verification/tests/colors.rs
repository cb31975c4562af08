use vga_buffer::{Color, ColorCode};

const ALL_COLORS: [Color; 16] = [
    Color::Black,
    Color::Blue,
    Color::Green,
    Color::Cyan,
    Color::Red,
    Color::Magenta,
    Color::Brown,
    Color::LightGray,
    Color::DarkGray,
    Color::LightBlue,
    Color::LightGreen,
    Color::LightCyan,
    Color::LightRed,
    Color::Pink,
    Color::Yellow,
    Color::White,
];

#[test]
fn color_codes_count_from_zero_to_fifteen() {
    for (expected, color) in ALL_COLORS.iter().enumerate() {
        assert_eq!(color.code() as usize, expected);
    }
    assert_eq!(Color::Black.code(), 0);
    assert_eq!(Color::Brown.code(), 6);
    assert_eq!(Color::LightGray.code(), 7);
    assert_eq!(Color::DarkGray.code(), 8);
    assert_eq!(Color::White.code(), 15);
}

#[test]
fn color_from_nibble_inverts_code() {
    for color in ALL_COLORS {
        assert_eq!(Color::from_nibble(color.code()), color);
    }
}

#[test]
fn color_from_nibble_reads_the_low_four_bits_only() {
    assert_eq!(Color::from_nibble(0x10), Color::Black);
    assert_eq!(Color::from_nibble(0x1e), Color::Yellow);
    assert_eq!(Color::from_nibble(0xff), Color::White);
    assert_eq!(Color::from_nibble(0xf4), Color::Red);
}

#[test]
fn color_pair_packs_background_high_and_foreground_low() {
    assert_eq!(ColorCode::new(Color::Yellow, Color::Black).0, 0x0e);
    assert_eq!(ColorCode::new(Color::Green, Color::Black).0, 0x02);
    assert_eq!(ColorCode::new(Color::Blue, Color::Brown).0, 0x61);
    assert_eq!(ColorCode::new(Color::Black, Color::White).0, 0xf0);
    assert_eq!(ColorCode::new(Color::White, Color::White).0, 0xff);
    assert_eq!(ColorCode::new(Color::Black, Color::Black).0, 0x00);
    assert_eq!(ColorCode::new(Color::LightRed, Color::DarkGray).0, 0x8c);
}

#[test]
fn color_pair_round_trips_for_every_pair() {
    for foreground in ALL_COLORS {
        for background in ALL_COLORS {
            let packed = ColorCode::new(foreground, background);
            assert_eq!(packed.0 & 0x0f, foreground.code());
            assert_eq!(packed.0 >> 4, background.code());
            assert_eq!(packed.foreground(), foreground);
            assert_eq!(packed.background(), background);
        }
    }
}

#[test]
fn color_pair_is_not_symmetric() {
    let one = ColorCode::new(Color::Red, Color::Blue);
    let other = ColorCode::new(Color::Blue, Color::Red);
    assert_ne!(one, other);
    assert_eq!(one.0, 0x14);
    assert_eq!(other.0, 0x41);
    assert_eq!(one.foreground(), other.background());
}

#[test]
fn every_attribute_byte_is_a_pair() {
    for bits in 0..=255u8 {
        let pair = ColorCode(bits);
        assert_eq!(ColorCode::new(pair.foreground(), pair.background()), pair);
    }
}
