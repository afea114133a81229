use vstd::prelude::*;
use crate::color::{Rgb565Color, Rgb666Color};
use crate::dcs::{PixelFormat, SetAddressMode};
use crate::error::{Error, InitError};
use crate::interface::{CommandInterface, DelayProvider, ResetOutput};
use crate::models::ili934x;
use crate::options::ModelOptions;

verus! {

/// ILI9342C display in 16-bit 5-6-5 color mode.
///
/// The 16-bit format is correct only on non-serial (parallel) transports
/// with this controller; over a serial transport it may not work. The
/// controller does not check this at run time.
pub struct ILI9342CRgb565;

/// ILI9342C display in 18-bit color mode.
pub struct ILI9342CRgb666;

impl ILI9342CRgb565 {
    /// The datasheet-default geometry: a 320x240 framebuffer and display.
    pub open spec fn spec_default_options() -> ModelOptions {
        ModelOptions::spec_with_sizes((320, 240), (320, 240))
    }

    /// Returns the controller's datasheet-default framebuffer and display
    /// sizes. Pure: every call returns the same value.
    pub fn default_options() -> (r: ModelOptions)
        ensures
            r == ILI9342CRgb565::spec_default_options(),
    {
        ModelOptions::with_sizes((320, 240), (320, 240))
    }

    /// Brings the controller to a drawable state: a hardware reset pulse
    /// when a reset pin is supplied, a soft-reset command when not, then the
    /// shared ILI934x bring-up sequence with the 16-bit pixel format.
    /// Returns the set-address-mode command encoding the requested
    /// orientation, which the caller must still transmit. The first
    /// capability failure aborts and leaves a proper prefix of the sequence
    /// on the transport.
    pub fn init<RST, DELAY, DI>(
        &mut self,
        dcs: &mut DI,
        delay: &mut DELAY,
        options: &ModelOptions,
        rst: &mut Option<RST>,
    ) -> (r: Result<SetAddressMode, InitError<RST::PinError, DI::BusError>>)
        where
            RST: ResetOutput,
            DELAY: DelayProvider,
            DI: CommandInterface,
        ensures
            r is Ok ==> r->Ok_0 == SetAddressMode::spec_from_options(*options)
                && ili934x::init_done(
                *old(dcs),
                *final(dcs),
                *old(delay),
                *final(delay),
                *old(rst),
                *final(rst),
                PixelFormat::Rgb565,
            ),
            r is Err ==> ili934x::init_aborted(
                *old(dcs),
                *final(dcs),
                *old(delay),
                *final(delay),
                *old(rst),
                *final(rst),
                PixelFormat::Rgb565,
                r->Err_0 is Pin,
            ),
    {
        ili934x::init_model(dcs, delay, options, rst, PixelFormat::Rgb565)
    }

    /// Streams colors through the transport in input order, one two-byte
    /// 5-6-5 encoding per color, aborting on the first transport failure
    /// with everything before it already sent.
    pub fn write_pixels<DI>(&mut self, dcs: &mut DI, colors: &[Rgb565Color]) -> (r: Result<
        (),
        Error<DI::BusError>,
    >)
        where
            DI: CommandInterface,
        requires
            forall|i: int| 0 <= i < colors@.len() ==> (#[trigger] colors@[i]).wf(),
        ensures
            r is Ok ==> final(dcs).ops() == old(dcs).ops() + ili934x::pixel_ops_rgb565(colors@),
            r is Err ==> exists|k: int|
                0 <= k < colors@.len() && final(dcs).ops() == old(dcs).ops()
                    + ili934x::pixel_ops_rgb565(#[trigger] colors@.take(k)),
    {
        ili934x::write_pixels_rgb565(dcs, colors)
    }
}

impl ILI9342CRgb666 {
    /// The datasheet-default geometry: a 320x240 framebuffer and display.
    pub open spec fn spec_default_options() -> ModelOptions {
        ModelOptions::spec_with_sizes((320, 240), (320, 240))
    }

    /// Returns the controller's datasheet-default framebuffer and display
    /// sizes. Pure: every call returns the same value.
    pub fn default_options() -> (r: ModelOptions)
        ensures
            r == ILI9342CRgb666::spec_default_options(),
    {
        ModelOptions::with_sizes((320, 240), (320, 240))
    }

    /// Brings the controller to a drawable state: a hardware reset pulse
    /// when a reset pin is supplied, a soft-reset command when not, then the
    /// shared ILI934x bring-up sequence with the 18-bit pixel format.
    /// Returns the set-address-mode command encoding the requested
    /// orientation, which the caller must still transmit. The first
    /// capability failure aborts and leaves a proper prefix of the sequence
    /// on the transport.
    pub fn init<RST, DELAY, DI>(
        &mut self,
        dcs: &mut DI,
        delay: &mut DELAY,
        options: &ModelOptions,
        rst: &mut Option<RST>,
    ) -> (r: Result<SetAddressMode, InitError<RST::PinError, DI::BusError>>)
        where
            RST: ResetOutput,
            DELAY: DelayProvider,
            DI: CommandInterface,
        ensures
            r is Ok ==> r->Ok_0 == SetAddressMode::spec_from_options(*options)
                && ili934x::init_done(
                *old(dcs),
                *final(dcs),
                *old(delay),
                *final(delay),
                *old(rst),
                *final(rst),
                PixelFormat::Rgb666,
            ),
            r is Err ==> ili934x::init_aborted(
                *old(dcs),
                *final(dcs),
                *old(delay),
                *final(delay),
                *old(rst),
                *final(rst),
                PixelFormat::Rgb666,
                r->Err_0 is Pin,
            ),
    {
        ili934x::init_model(dcs, delay, options, rst, PixelFormat::Rgb666)
    }

    /// Streams colors through the transport in input order, one three-byte
    /// encoding per color, aborting on the first transport failure with
    /// everything before it already sent.
    pub fn write_pixels<DI>(&mut self, dcs: &mut DI, colors: &[Rgb666Color]) -> (r: Result<
        (),
        Error<DI::BusError>,
    >)
        where
            DI: CommandInterface,
        requires
            forall|i: int| 0 <= i < colors@.len() ==> (#[trigger] colors@[i]).wf(),
        ensures
            r is Ok ==> final(dcs).ops() == old(dcs).ops() + ili934x::pixel_ops_rgb666(colors@),
            r is Err ==> exists|k: int|
                0 <= k < colors@.len() && final(dcs).ops() == old(dcs).ops()
                    + ili934x::pixel_ops_rgb666(#[trigger] colors@.take(k)),
    {
        ili934x::write_pixels_rgb666(dcs, colors)
    }
}

} // verus!
