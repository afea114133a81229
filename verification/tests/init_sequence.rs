//! Initialization scenarios: reset-path agreement, pin pulsing, mandated
//! waits, and failure propagation during bring-up.

use mipidsi::dcs::SetAddressMode;
use mipidsi::mock::{InjectedFault, RecordedOp, RecordingDelay, RecordingInterface, RecordingPin};
use mipidsi::{ILI9341Rgb565, ILI9341Rgb666, ILI9342CRgb565, ILI9342CRgb666, InitError, ModelOptions};

fn cmd(instruction: u8, params: Vec<u8>) -> RecordedOp {
    RecordedOp::Command { instruction, params }
}

fn bring_up(format_byte: u8) -> Vec<RecordedOp> {
    vec![
        cmd(0x11, vec![]),
        cmd(0x3A, vec![format_byte]),
        cmd(0x13, vec![]),
        cmd(0x29, vec![]),
    ]
}

#[test]
fn init_with_reset_pin_pulses_once_then_brings_up() {
    let mut di = RecordingInterface::new();
    let mut delay = RecordingDelay::new();
    let mut rst = Some(RecordingPin::new());
    let options = ModelOptions::with_sizes((240, 320), (240, 320));
    let r = ILI9341Rgb565.init(&mut di, &mut delay, &options, &mut rst);
    assert_eq!(r, Ok(SetAddressMode { mode: 0 }));
    let pin = rst.unwrap();
    assert_eq!(pin.log, vec![false, true]);
    assert_eq!(di.log, bring_up(0x55));
    assert_eq!(delay.log, vec![10, 120_000, 10_000]);
}

#[test]
fn init_without_reset_pin_soft_resets_then_brings_up() {
    let mut di = RecordingInterface::new();
    let mut delay = RecordingDelay::new();
    let mut rst: Option<RecordingPin> = None;
    let options = ModelOptions::with_sizes((240, 320), (240, 320));
    let r = ILI9341Rgb565.init(&mut di, &mut delay, &options, &mut rst);
    assert_eq!(r, Ok(SetAddressMode { mode: 0 }));
    assert!(rst.is_none());
    let mut expected = vec![cmd(0x01, vec![])];
    expected.extend(bring_up(0x55));
    assert_eq!(di.log, expected);
    assert_eq!(delay.log, vec![120_000, 10_000]);
}

#[test]
fn sequence_after_reset_is_identical_on_both_paths() {
    let options = ModelOptions::with_sizes((240, 320), (240, 320));

    let mut di_hard = RecordingInterface::new();
    let mut delay_hard = RecordingDelay::new();
    let mut rst_hard = Some(RecordingPin::new());
    ILI9341Rgb666.init(&mut di_hard, &mut delay_hard, &options, &mut rst_hard).unwrap();

    let mut di_soft = RecordingInterface::new();
    let mut delay_soft = RecordingDelay::new();
    let mut rst_soft: Option<RecordingPin> = None;
    ILI9341Rgb666.init(&mut di_soft, &mut delay_soft, &options, &mut rst_soft).unwrap();

    // The soft path issues exactly one extra leading command: the soft reset.
    assert_eq!(di_soft.log[0], cmd(0x01, vec![]));
    assert_eq!(di_soft.log[1..], di_hard.log[..]);
}

#[test]
fn each_model_selects_its_pixel_format() {
    let options = ModelOptions::with_sizes((240, 320), (240, 320));
    let mut rst: Option<RecordingPin> = None;

    let mut di = RecordingInterface::new();
    let mut delay = RecordingDelay::new();
    ILI9341Rgb565.init(&mut di, &mut delay, &options, &mut rst).unwrap();
    assert_eq!(di.log[2], cmd(0x3A, vec![0x55]));

    let mut di = RecordingInterface::new();
    let mut delay = RecordingDelay::new();
    ILI9341Rgb666.init(&mut di, &mut delay, &options, &mut rst).unwrap();
    assert_eq!(di.log[2], cmd(0x3A, vec![0x66]));

    let mut di = RecordingInterface::new();
    let mut delay = RecordingDelay::new();
    ILI9342CRgb565.init(&mut di, &mut delay, &options, &mut rst).unwrap();
    assert_eq!(di.log[2], cmd(0x3A, vec![0x55]));

    let mut di = RecordingInterface::new();
    let mut delay = RecordingDelay::new();
    ILI9342CRgb666.init(&mut di, &mut delay, &options, &mut rst).unwrap();
    assert_eq!(di.log[2], cmd(0x3A, vec![0x66]));
}

#[test]
fn init_returns_address_mode_for_options() {
    let mut options = ModelOptions::with_sizes((320, 240), (320, 240));
    options.mirror_vertical = true;
    options.mirror_horizontal = true;
    options.bgr = true;
    let mut di = RecordingInterface::new();
    let mut delay = RecordingDelay::new();
    let mut rst: Option<RecordingPin> = None;
    let r = ILI9342CRgb565.init(&mut di, &mut delay, &options, &mut rst);
    assert_eq!(r, Ok(SetAddressMode { mode: 0x80 | 0x40 | 0x08 }));
    // The address-mode command itself is not transmitted by init.
    assert!(di.log.iter().all(|op| *op != cmd(0x36, vec![0xC8])));
}

#[test]
fn pin_fault_aborts_before_any_command() {
    let mut di = RecordingInterface::new();
    let mut delay = RecordingDelay::new();
    let mut rst = Some(RecordingPin::failing_at(0));
    let options = ModelOptions::with_sizes((240, 320), (240, 320));
    let r = ILI9341Rgb565.init(&mut di, &mut delay, &options, &mut rst);
    assert_eq!(r, Err(InitError::Pin(InjectedFault)));
    assert!(di.log.is_empty());
    assert!(delay.log.is_empty());
    assert!(rst.unwrap().log.is_empty());
}

#[test]
fn pin_fault_on_release_leaves_line_low() {
    let mut di = RecordingInterface::new();
    let mut delay = RecordingDelay::new();
    let mut rst = Some(RecordingPin::failing_at(1));
    let options = ModelOptions::with_sizes((240, 320), (240, 320));
    let r = ILI9341Rgb565.init(&mut di, &mut delay, &options, &mut rst);
    assert_eq!(r, Err(InitError::Pin(InjectedFault)));
    assert!(di.log.is_empty());
    assert_eq!(delay.log, vec![10]);
    assert_eq!(rst.unwrap().log, vec![false]);
}

#[test]
fn transport_fault_during_bring_up_leaves_prefix() {
    // Fail the third command of the whole run (after soft reset + exit sleep).
    let mut di = RecordingInterface::failing_at(2);
    let mut delay = RecordingDelay::new();
    let mut rst: Option<RecordingPin> = None;
    let options = ModelOptions::with_sizes((240, 320), (240, 320));
    let r = ILI9341Rgb565.init(&mut di, &mut delay, &options, &mut rst);
    assert_eq!(r, Err(InitError::Interface(InjectedFault)));
    assert_eq!(di.log, vec![cmd(0x01, vec![]), cmd(0x11, vec![])]);
    assert_eq!(delay.log, vec![120_000]);
}

#[test]
fn soft_reset_failure_writes_nothing_more() {
    let mut di = RecordingInterface::failing_at(0);
    let mut delay = RecordingDelay::new();
    let mut rst: Option<RecordingPin> = None;
    let options = ModelOptions::with_sizes((240, 320), (240, 320));
    let r = ILI9341Rgb666.init(&mut di, &mut delay, &options, &mut rst);
    assert_eq!(r, Err(InitError::Interface(InjectedFault)));
    assert!(di.log.is_empty());
    assert!(delay.log.is_empty());
}

#[test]
fn address_mode_send_transmits_one_command() {
    let mut di = RecordingInterface::new();
    let mode = SetAddressMode { mode: 0x48 };
    assert_eq!(mode.send(&mut di), Ok(()));
    assert_eq!(di.log, vec![cmd(0x36, vec![0x48])]);
}

#[test]
fn hard_reset_drives_low_waits_then_releases() {
    let mut pin = RecordingPin::new();
    let mut delay = RecordingDelay::new();
    assert_eq!(mipidsi::models::hard_reset(&mut pin, &mut delay), Ok(()));
    assert_eq!(pin.log, vec![false, true]);
    assert_eq!(delay.log, vec![10]);
}
