use fractal::color::Color;

#[test]
fn packed_puts_red_low_and_blue_high() {
    let c = Color::new(0x01, 0x02, 0x03);
    assert_eq!(c.packed(), 0x0003_0201);
}

#[test]
fn packed_of_white_is_24_bits() {
    let c = Color::new(255, 255, 255);
    assert_eq!(c.packed(), 0x00FF_FFFF);
}

#[test]
fn into_u32_matches_packed() {
    let c = Color::new(10, 20, 30);
    let p: u32 = c.into();
    assert_eq!(p, 10 | (20 << 8) | (30 << 16));
    assert_eq!(u32::from(c), c.packed());
}

#[test]
fn packed_round_trip_by_masks() {
    for &(r, g, b) in &[(0u8, 0u8, 0u8), (1, 2, 3), (255, 0, 128), (17, 255, 254), (255, 255, 255)] {
        let p = Color::new(r, g, b).packed();
        assert_eq!((p & 0xFF) as u8, r);
        assert_eq!(((p >> 8) & 0xFF) as u8, g);
        assert_eq!(((p >> 16) & 0xFF) as u8, b);
        assert_eq!(p >> 24, 0);
    }
}

#[test]
fn from_packed_recovers_colour() {
    let c = Color::new(200, 100, 50);
    assert_eq!(Color::from_packed(c.packed()), c);
}

#[test]
fn from_packed_ignores_top_byte() {
    assert_eq!(Color::from_packed(0xAB03_0201), Color::new(1, 2, 3));
}
