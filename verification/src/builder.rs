//! Thin construction convenience: composes a transport, a controller model
//! and its default geometry into one value ahead of initialization.

use vstd::prelude::*;
use crate::models::ili9341::{ILI9341Rgb565, ILI9341Rgb666};
use crate::models::ili9342c::{ILI9342CRgb565, ILI9342CRgb666};
use crate::options::ModelOptions;

verus! {

/// A display under construction: the transport it will use, the controller
/// model driving it, and the options initialization will consume.
pub struct Builder<DI, MODEL> {
    /// The command/data transport the display will be driven through.
    pub di: DI,
    /// The controller model.
    pub model: MODEL,
    /// The options initialization will consume.
    pub options: ModelOptions,
}

impl<DI> Builder<DI, ILI9341Rgb565> {
    /// Builds a display over `di` with the ILI9341 model in 16-bit color and
    /// its default 240x320 framebuffer and display size.
    ///
    /// The 16-bit format is correct only on non-serial (parallel) transports
    /// with the ILI9341.
    pub fn ili9341_rgb565(di: DI) -> (r: Builder<DI, ILI9341Rgb565>)
        ensures
            r.di == di,
            r.options == ILI9341Rgb565::spec_default_options(),
    {
        Builder { di, model: ILI9341Rgb565, options: ILI9341Rgb565::default_options() }
    }
}

impl<DI> Builder<DI, ILI9341Rgb666> {
    /// Builds a display over `di` with the ILI9341 model in 18-bit color and
    /// its default 240x320 framebuffer and display size.
    pub fn ili9341_rgb666(di: DI) -> (r: Builder<DI, ILI9341Rgb666>)
        ensures
            r.di == di,
            r.options == ILI9341Rgb666::spec_default_options(),
    {
        Builder { di, model: ILI9341Rgb666, options: ILI9341Rgb666::default_options() }
    }
}

impl<DI> Builder<DI, ILI9342CRgb565> {
    /// Builds a display over `di` with the ILI9342C model in 16-bit color
    /// and its default 320x240 framebuffer and display size.
    ///
    /// The 16-bit format is correct only on non-serial (parallel) transports
    /// with the ILI9342C.
    pub fn ili9342c_rgb565(di: DI) -> (r: Builder<DI, ILI9342CRgb565>)
        ensures
            r.di == di,
            r.options == ILI9342CRgb565::spec_default_options(),
    {
        Builder { di, model: ILI9342CRgb565, options: ILI9342CRgb565::default_options() }
    }
}

impl<DI> Builder<DI, ILI9342CRgb666> {
    /// Builds a display over `di` with the ILI9342C model in 18-bit color
    /// and its default 320x240 framebuffer and display size.
    pub fn ili9342c_rgb666(di: DI) -> (r: Builder<DI, ILI9342CRgb666>)
        ensures
            r.di == di,
            r.options == ILI9342CRgb666::spec_default_options(),
    {
        Builder { di, model: ILI9342CRgb666, options: ILI9342CRgb666::default_options() }
    }
}

/// Law: every model's default options are a fixed value — two calls agree —
/// and siblings sharing a controller share its datasheet geometry: the
/// ILI9341 defaults to a 240x320 framebuffer and display under 16-bit and
/// 18-bit color alike, the ILI9342C to 320x240 under both.
pub proof fn lemma_default_options_deterministic()
    ensures
        ILI9341Rgb565::spec_default_options() == ILI9341Rgb666::spec_default_options(),
        ILI9341Rgb565::spec_default_options().framebuffer_size == (240u16, 320u16),
        ILI9341Rgb565::spec_default_options().display_size == (240u16, 320u16),
        ILI9342CRgb565::spec_default_options() == ILI9342CRgb666::spec_default_options(),
        ILI9342CRgb565::spec_default_options().framebuffer_size == (320u16, 240u16),
        ILI9342CRgb565::spec_default_options().display_size == (320u16, 240u16),
{
}

} // verus!
