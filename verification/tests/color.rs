use epd_color::color::{BinaryPixelState, Color};

#[test]
fn from_u8() {
    assert_eq!(Color::Black, Color::from_byte(0u8));
    assert_eq!(Color::White, Color::from_byte(1u8));
}

#[test]
fn from_byte_covers_red() {
    assert_eq!(Color::Red, Color::from_byte(2u8));
}

#[test]
fn from_raw_single_bit_zero_is_black() {
    assert_eq!(Color::Black, Color::from_raw_single_bit(0u8));
}

#[test]
fn from_raw_single_bit_nonzero_is_white() {
    for bit in 1u8..=255u8 {
        assert_eq!(Color::White, Color::from_raw_single_bit(bit));
    }
}

#[test]
fn from_binary_on_is_black() {
    assert_eq!(Color::Black, Color::from_binary(BinaryPixelState::On));
}

#[test]
fn from_binary_off_is_white() {
    assert_eq!(Color::White, Color::from_binary(BinaryPixelState::Off));
}

#[test]
fn default_is_white() {
    assert_eq!(Color::White, Color::default());
}

#[test]
fn equality_tells_variants_apart() {
    assert_eq!(Color::Black, Color::Black);
    assert_eq!(Color::White, Color::White);
    assert_eq!(Color::Red, Color::Red);
    assert_ne!(Color::Black, Color::White);
    assert_ne!(Color::White, Color::Red);
    assert_ne!(Color::Red, Color::Black);
}

#[test]
fn checkerboard_bytes_decode_in_order() {
    let bytes: Vec<u8> = vec![0, 1, 2, 0, 1, 2];
    let mut decoded: Vec<Color> = Vec::new();
    for byte in bytes {
        decoded.push(Color::from_byte(byte));
    }
    let expected: Vec<Color> = vec![
        Color::Black,
        Color::White,
        Color::Red,
        Color::Black,
        Color::White,
        Color::Red,
    ];
    assert_eq!(expected, decoded);
}
