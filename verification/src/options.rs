use vstd::prelude::*;

verus! {

/// Configuration fixed at display construction: the controller's framebuffer
/// size, the physical display size (both as `(width, height)` pairs), and the
/// address-mode defaults (mirroring and color order) that the controller's
/// set-address-mode command will encode.
#[derive(Clone, Copy, Debug, PartialEq, Eq)]
pub struct ModelOptions {
    /// Framebuffer size in pixels as `(width, height)`.
    pub framebuffer_size: (u16, u16),
    /// Physical display size in pixels as `(width, height)`.
    pub display_size: (u16, u16),
    /// Mirror the horizontal scan direction (the MX address-mode bit).
    pub mirror_horizontal: bool,
    /// Mirror the vertical scan direction (the MY address-mode bit).
    pub mirror_vertical: bool,
    /// Emit pixels in BGR channel order instead of RGB (the BGR bit).
    pub bgr: bool,
}

impl ModelOptions {
    /// The options a model's datasheet defaults give: the stated sizes, no
    /// mirroring, RGB channel order.
    pub open spec fn spec_with_sizes(framebuffer_size: (u16, u16), display_size: (u16, u16)) -> ModelOptions {
        ModelOptions {
            framebuffer_size,
            display_size,
            mirror_horizontal: false,
            mirror_vertical: false,
            bgr: false,
        }
    }

    /// Builds options from a framebuffer size and a display size, with the
    /// default orientation (no mirroring, RGB order).
    pub fn with_sizes(framebuffer_size: (u16, u16), display_size: (u16, u16)) -> (r: ModelOptions)
        ensures
            r == ModelOptions::spec_with_sizes(framebuffer_size, display_size),
    {
        ModelOptions {
            framebuffer_size,
            display_size,
            mirror_horizontal: false,
            mirror_vertical: false,
            bgr: false,
        }
    }
}

} // verus!
