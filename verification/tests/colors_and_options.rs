//! Color encoding round trips, conversions from embedded_graphics_core
//! values, default options and the builder constructors.

use embedded_graphics_core::pixelcolor::{Rgb565, Rgb666};
use mipidsi::color::{Rgb565Color, Rgb666Color};
use mipidsi::{Builder, ILI9341Rgb565, ILI9341Rgb666, ILI9342CRgb565, ILI9342CRgb666, ModelOptions};

#[test]
fn rgb565_encode_matches_documented_format() {
    // red 5 bits high in byte 0; green split 3/3; blue 5 bits low in byte 1.
    assert_eq!(Rgb565Color { r: 31, g: 63, b: 31 }.encode(), vec![0xFF, 0xFF]);
    assert_eq!(Rgb565Color { r: 0, g: 0, b: 0 }.encode(), vec![0x00, 0x00]);
    assert_eq!(Rgb565Color { r: 17, g: 0, b: 0 }.encode(), vec![0x88, 0x00]);
    assert_eq!(Rgb565Color { r: 0, g: 33, b: 0 }.encode(), vec![0x04, 0x20]);
    assert_eq!(Rgb565Color { r: 0, g: 0, b: 17 }.encode(), vec![0x00, 0x11]);
}

#[test]
fn rgb565_round_trip_is_lossless() {
    for r in 0..32u8 {
        for g in 0..64u8 {
            let c = Rgb565Color { r, g, b: (r + g) % 32 };
            let bytes = c.encode();
            assert_eq!(Rgb565Color::decode(bytes[0], bytes[1]), c);
        }
    }
}

#[test]
fn rgb666_encode_shifts_each_channel_high() {
    assert_eq!(Rgb666Color { r: 63, g: 63, b: 63 }.encode(), vec![0xFC, 0xFC, 0xFC]);
    assert_eq!(Rgb666Color { r: 1, g: 2, b: 3 }.encode(), vec![0x04, 0x08, 0x0C]);
}

#[test]
fn rgb666_round_trip_is_lossless_on_six_bits() {
    for r in 0..64u8 {
        let c = Rgb666Color { r, g: 63 - r, b: r / 2 };
        let bytes = c.encode();
        assert_eq!(Rgb666Color::decode(bytes[0], bytes[1], bytes[2]), c);
    }
}

#[test]
fn rgb666_from_full_width_channels_loses_only_two_low_bits() {
    for x in 0..=255u8 {
        let c = Rgb666Color::from_rgb888(x, x, x);
        let bytes = c.encode();
        let back = Rgb666Color::decode(bytes[0], bytes[1], bytes[2]);
        assert_eq!(back, c);
        // Widened back to 8 bits, the value differs only in the 2 low bits.
        assert_eq!(back.r * 4, x & 0xFC);
    }
}

#[test]
fn conversion_reads_real_channel_values() {
    let c = Rgb565Color::from_eg(Rgb565::new(17, 42, 5));
    assert_eq!(c, Rgb565Color { r: 17, g: 42, b: 5 });
    let c = Rgb666Color::from_eg(Rgb666::new(60, 1, 33));
    assert_eq!(c, Rgb666Color { r: 60, g: 1, b: 33 });
}

#[test]
fn conversion_respects_channel_masking() {
    // embedded_graphics_core masks over-wide channel values on construction.
    let c = Rgb565Color::from_eg(Rgb565::new(255, 255, 255));
    assert_eq!(c, Rgb565Color { r: 31, g: 63, b: 31 });
}

#[test]
fn default_options_are_deterministic_and_shared_by_siblings() {
    assert_eq!(ILI9341Rgb565::default_options(), ILI9341Rgb565::default_options());
    assert_eq!(ILI9341Rgb565::default_options(), ILI9341Rgb666::default_options());
    assert_eq!(ILI9342CRgb565::default_options(), ILI9342CRgb666::default_options());

    let o = ILI9341Rgb565::default_options();
    assert_eq!(o.framebuffer_size, (240, 320));
    assert_eq!(o.display_size, (240, 320));

    let o = ILI9342CRgb565::default_options();
    assert_eq!(o.framebuffer_size, (320, 240));
    assert_eq!(o.display_size, (320, 240));
}

#[test]
fn with_sizes_keeps_both_sizes_and_default_flags() {
    let o = ModelOptions::with_sizes((11, 22), (33, 44));
    assert_eq!(o.framebuffer_size, (11, 22));
    assert_eq!(o.display_size, (33, 44));
    assert!(!o.mirror_horizontal);
    assert!(!o.mirror_vertical);
    assert!(!o.bgr);
}

#[test]
fn builders_carry_their_model_defaults() {
    let b = Builder::<u8, ILI9341Rgb565>::ili9341_rgb565(7);
    assert_eq!(b.di, 7);
    assert_eq!(b.options, ILI9341Rgb565::default_options());

    let b = Builder::<u8, ILI9341Rgb666>::ili9341_rgb666(8);
    assert_eq!(b.options, ILI9341Rgb666::default_options());

    let b = Builder::<u8, ILI9342CRgb565>::ili9342c_rgb565(9);
    assert_eq!(b.options, ILI9342CRgb565::default_options());

    let b = Builder::<u8, ILI9342CRgb666>::ili9342c_rgb666(10);
    assert_eq!(b.di, 10);
    assert_eq!(b.options, ILI9342CRgb666::default_options());
}
