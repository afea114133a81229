//! Driver core for TFT-LCD controllers that speak the MIPI Display Command
//! Set (DCS) over a write-only command/data transport.
//!
//! The library covers the controller-model layer: the reset state machine
//! (hardware pulse or software reset command), the bring-up command sequence
//! shared by the ILI934x controller family, and the pixel packing that turns
//! color values into the wire encoding each pixel format expects. The
//! physical transport, the delay source and the reset line are the abstract
//! capabilities of [`interface`]; recording test doubles live in [`mock`].

pub mod builder;
pub mod color;
pub mod dcs;
pub mod error;
pub mod interface;
pub mod mock;
pub mod models;
pub mod options;

pub use builder::Builder;
pub use error::{Error, InitError};
pub use models::ili9341::{ILI9341Rgb565, ILI9341Rgb666};
pub use models::ili9342c::{ILI9342CRgb565, ILI9342CRgb666};
pub use options::ModelOptions;
