use vstd::prelude::*;
use crate::interface::CommandInterface;
use crate::options::ModelOptions;

verus! {

/// DCS opcode: software reset.
pub const SOFT_RESET: u8 = 0x01;
/// DCS opcode: exit sleep mode.
pub const EXIT_SLEEP_MODE: u8 = 0x11;
/// DCS opcode: enter normal display mode.
pub const ENTER_NORMAL_MODE: u8 = 0x13;
/// DCS opcode: set display on.
pub const SET_DISPLAY_ON: u8 = 0x29;
/// DCS opcode: set address mode (scan direction, mirroring, color order).
pub const SET_ADDRESS_MODE: u8 = 0x36;
/// DCS opcode: set interface pixel format.
pub const SET_PIXEL_FORMAT: u8 = 0x3A;

/// Address-mode bit: mirror the vertical scan direction (MY).
pub const MADCTL_MIRROR_VERTICAL: u8 = 0x80;
/// Address-mode bit: mirror the horizontal scan direction (MX).
pub const MADCTL_MIRROR_HORIZONTAL: u8 = 0x40;
/// Address-mode bit: BGR channel order (RGB when clear).
pub const MADCTL_BGR: u8 = 0x08;

/// One operation at DCS granularity, as a transport observes it: either a
/// command (an opcode with its parameter bytes) or a run of raw data bytes.
/// This is the ghost alphabet every transport log is written in.
pub enum DcsOp {
    Command { instruction: u8, params: Seq<u8> },
    Data { bytes: Seq<u8> },
}

/// The wire pixel format a controller model is paired with.
#[derive(Clone, Copy, Debug, PartialEq, Eq, Structural)]
pub enum PixelFormat {
    /// 16 bits per pixel, RGB 5-6-5, sent big-endian in two bytes.
    Rgb565,
    /// 18 bits per pixel, one byte per 6-bit channel, channel value in the
    /// byte's six most significant bits.
    Rgb666,
}

/// The parameter byte the set-pixel-format command carries for each format.
pub open spec fn spec_pixel_format_byte(format: PixelFormat) -> u8 {
    match format {
        PixelFormat::Rgb565 => 0x55,
        PixelFormat::Rgb666 => 0x66,
    }
}

/// Returns the set-pixel-format parameter byte for `format`.
pub fn pixel_format_byte(format: PixelFormat) -> (b: u8)
    ensures
        b == spec_pixel_format_byte(format),
{
    match format {
        PixelFormat::Rgb565 => 0x55,
        PixelFormat::Rgb666 => 0x66,
    }
}

/// The set-address-mode command value that initialization produces. It
/// encodes the requested orientation; the caller owns it afterwards and must
/// still transmit it (and may retransmit it for later window addressing).
#[derive(Clone, Copy, Debug, PartialEq, Eq, Structural)]
pub struct SetAddressMode {
    /// The address-mode parameter byte (mirroring and color-order bits).
    pub mode: u8,
}

/// The address-mode byte `options` asks for. The three flag bits are
/// disjoint, so the byte is their sum.
pub open spec fn spec_address_mode_byte(options: ModelOptions) -> u8 {
    ((if options.mirror_vertical { MADCTL_MIRROR_VERTICAL as int } else { 0int })
        + (if options.mirror_horizontal { MADCTL_MIRROR_HORIZONTAL as int } else { 0int })
        + (if options.bgr { MADCTL_BGR as int } else { 0int })) as u8
}

impl SetAddressMode {
    /// The command value encoding the orientation `options` asks for.
    pub open spec fn spec_from_options(options: ModelOptions) -> SetAddressMode {
        SetAddressMode { mode: spec_address_mode_byte(options) }
    }

    /// Builds the set-address-mode command value for `options`.
    pub fn from_options(options: &ModelOptions) -> (r: SetAddressMode)
        ensures
            r == SetAddressMode::spec_from_options(*options),
    {
        let mut mode: u8 = 0;
        if options.mirror_vertical {
            mode = mode + MADCTL_MIRROR_VERTICAL;
        }
        if options.mirror_horizontal {
            mode = mode + MADCTL_MIRROR_HORIZONTAL;
        }
        if options.bgr {
            mode = mode + MADCTL_BGR;
        }
        SetAddressMode { mode }
    }

    /// The DCS operation that transmits this command.
    pub open spec fn spec_op(self) -> DcsOp {
        DcsOp::Command { instruction: SET_ADDRESS_MODE, params: seq![self.mode] }
    }

    /// Transmits this command: the set-address-mode opcode with the mode
    /// byte as its one parameter. On failure the transport observed nothing.
    pub fn send<DI: CommandInterface>(&self, di: &mut DI) -> (r: Result<(), DI::BusError>)
        ensures
            r is Ok ==> final(di).ops() == old(di).ops().push(self.spec_op()),
            r is Err ==> final(di).ops() == old(di).ops(),
    {
        let mut params: Vec<u8> = Vec::new();
        params.push(self.mode);
        proof {
            assert(params@ =~= seq![self.mode]);
        }
        match di.write_command(SET_ADDRESS_MODE, params.as_slice()) {
            Ok(()) => Ok(()),
            Err(e) => Err(e),
        }
    }
}

} // verus!
