//! Pixel formats: what a caller asks for, and what the backend actually
//! negotiated.

use vstd::prelude::*;

verus! {

/// The framebuffer properties a caller would like the negotiated format to
/// have. The value is consumed at creation time only and never mutated.
///
/// A `None` field leaves the choice to the backend. The headless backend
/// shown in this crate negotiates from a fixed baseline and does not consult
/// this value (see [`crate::headless::baseline_attributes`]); it is part of
/// the creation surface so that every backend takes the same inputs.
#[derive(Clone, Copy, Debug, PartialEq, Eq)]
pub struct PixelFormatRequirements {
    /// Whether the format must (`Some(true)`) or must not (`Some(false)`) be
    /// hardware accelerated.
    pub hardware_accelerated: Option<bool>,
    /// Minimum bits of the color buffer, alpha excluded.
    pub color_bits: Option<u8>,
    /// Minimum bits of the alpha channel.
    pub alpha_bits: Option<u8>,
    /// Minimum bits of the depth buffer.
    pub depth_bits: Option<u8>,
    /// Minimum bits of the stencil buffer.
    pub stencil_bits: Option<u8>,
    /// Whether the format must (`Some(true)`) or must not (`Some(false)`) be
    /// double buffered.
    pub double_buffer: Option<bool>,
    /// Minimum number of samples per pixel, when multisampling is wanted.
    pub multisampling: Option<u16>,
    /// Whether stereoscopic output is required.
    pub stereoscopy: bool,
}

impl PixelFormatRequirements {
    /// The requirements that constrain nothing: every choice is left to the
    /// backend and stereoscopy is not required.
    pub open spec fn spec_default() -> PixelFormatRequirements {
        PixelFormatRequirements {
            hardware_accelerated: None,
            color_bits: None,
            alpha_bits: None,
            depth_bits: None,
            stencil_bits: None,
            double_buffer: None,
            multisampling: None,
            stereoscopy: false,
        }
    }
}

impl Default for PixelFormatRequirements {
    /// Requirements that constrain nothing.
    fn default() -> (r: Self)
        ensures
            r == Self::spec_default(),
    {
        PixelFormatRequirements {
            hardware_accelerated: None,
            color_bits: None,
            alpha_bits: None,
            depth_bits: None,
            stencil_bits: None,
            double_buffer: None,
            multisampling: None,
            stereoscopy: false,
        }
    }
}

/// The format the backend actually negotiated, which may differ from the
/// request. Read-only: it is queried after creation and never changes over a
/// context's lifetime.
#[derive(Clone, Copy, Debug, PartialEq, Eq)]
pub struct PixelFormat {
    /// Whether the format is hardware accelerated.
    pub hardware_accelerated: bool,
    /// Bits of the color buffer, alpha excluded.
    pub color_bits: u8,
    /// Bits of the alpha channel.
    pub alpha_bits: u8,
    /// Bits of the depth buffer.
    pub depth_bits: u8,
    /// Bits of the stencil buffer.
    pub stencil_bits: u8,
    /// Whether the format is stereoscopic.
    pub stereoscopy: bool,
    /// Whether the format is double buffered.
    pub double_buffer: bool,
    /// Samples per pixel, when the format is multisampled.
    pub multisampling: Option<u16>,
    /// Whether the framebuffer is sRGB-capable.
    pub srgb: bool,
}

} // verus!
