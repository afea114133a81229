//! Pixel streaming scenarios: exact wire bytes, ordering over whole streams,
//! and failure propagation mid-stream.

use mipidsi::color::{Rgb565Color, Rgb666Color};
use mipidsi::mock::{InjectedFault, RecordedOp, RecordingInterface};
use mipidsi::{Error, ILI9341Rgb565, ILI9341Rgb666};

fn data(bytes: Vec<u8>) -> RecordedOp {
    RecordedOp::Data { bytes }
}

#[test]
fn rgb565_pixels_go_out_in_order_two_bytes_each() {
    let mut di = RecordingInterface::new();
    let colors = [
        Rgb565Color { r: 31, g: 0, b: 0 },
        Rgb565Color { r: 0, g: 63, b: 0 },
        Rgb565Color { r: 0, g: 0, b: 31 },
        Rgb565Color { r: 16, g: 32, b: 8 },
    ];
    let r = ILI9341Rgb565.write_pixels(&mut di, &colors);
    assert_eq!(r, Ok(()));
    assert_eq!(
        di.log,
        vec![
            data(vec![0xF8, 0x00]),
            data(vec![0x07, 0xE0]),
            data(vec![0x00, 0x1F]),
            data(vec![0x84, 0x08]),
        ]
    );
}

#[test]
fn rgb666_pixels_go_out_in_order_three_bytes_each() {
    let mut di = RecordingInterface::new();
    let colors = [
        Rgb666Color { r: 63, g: 0, b: 0 },
        Rgb666Color { r: 1, g: 2, b: 3 },
    ];
    let r = ILI9341Rgb666.write_pixels(&mut di, &colors);
    assert_eq!(r, Ok(()));
    assert_eq!(
        di.log,
        vec![data(vec![0xFC, 0x00, 0x00]), data(vec![0x04, 0x08, 0x0C])]
    );
}

#[test]
fn empty_stream_writes_nothing() {
    let mut di = RecordingInterface::new();
    let colors: [Rgb565Color; 0] = [];
    let r = ILI9341Rgb565.write_pixels(&mut di, &colors);
    assert_eq!(r, Ok(()));
    assert!(di.log.is_empty());
}

#[test]
fn single_pixel_stream_writes_one_transmission() {
    let mut di = RecordingInterface::new();
    let colors = [Rgb565Color { r: 1, g: 2, b: 3 }];
    let r = ILI9341Rgb565.write_pixels(&mut di, &colors);
    assert_eq!(r, Ok(()));
    assert_eq!(di.log, vec![data(vec![0x08, 0x43])]);
}

#[test]
fn failure_on_attempt_k_leaves_first_k_writes_observed() {
    // The transport fails the third attempt: the first two colors must
    // already have been observed, and nothing after them.
    let mut di = RecordingInterface::failing_at(2);
    let colors = [
        Rgb565Color { r: 1, g: 0, b: 0 },
        Rgb565Color { r: 2, g: 0, b: 0 },
        Rgb565Color { r: 3, g: 0, b: 0 },
        Rgb565Color { r: 4, g: 0, b: 0 },
    ];
    let r = ILI9341Rgb565.write_pixels(&mut di, &colors);
    assert_eq!(r, Err(Error::Interface(InjectedFault)));
    assert_eq!(di.log, vec![data(vec![0x08, 0x00]), data(vec![0x10, 0x00])]);
}

#[test]
fn failure_on_first_attempt_writes_nothing() {
    let mut di = RecordingInterface::failing_at(0);
    let colors = [Rgb666Color { r: 9, g: 9, b: 9 }];
    let r = ILI9341Rgb666.write_pixels(&mut di, &colors);
    assert_eq!(r, Err(Error::Interface(InjectedFault)));
    assert!(di.log.is_empty());
}
