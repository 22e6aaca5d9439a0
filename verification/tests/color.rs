use bevy_support_misc::color::HexColor;

#[test]
fn channels_of_a_color() {
    assert_eq!(HexColor(0x12_34_56).channels(), (0x12, 0x34, 0x56));
    assert_eq!(HexColor(0xFF_FF_FF).channels(), (255, 255, 255));
    assert_eq!(HexColor::default().channels(), (0, 0, 0));
}

#[test]
fn high_bits_are_ignored() {
    assert_eq!(HexColor(0xAB_12_34_56).channels(), HexColor(0x12_34_56).channels());
}

#[test]
fn channels_recompose() {
    for x in [0u32, 1, 0x80_00_00, 0xDEAD_BEEF, u32::MAX] {
        let (r, g, b) = HexColor(x).channels();
        assert_eq!(((r as u32) << 16) | ((g as u32) << 8) | b as u32, x & 0xFF_FF_FF);
    }
}
