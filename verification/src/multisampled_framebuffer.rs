//! The multisampled framebuffer pair: the multisampled colour target the 3D
//! passes draw into, and the single-sample linear-colour intermediate the
//! multisample resolve lands in. The intermediate exists so the resolve
//! never writes a gamma-encoded swapchain image directly — a manual
//! fullscreen-triangle pass does that last, colour-space-correct step.

use vstd::prelude::*;
use crate::texture::{TextureDesc, TextureFormat};

verus! {

/// The two colour targets, recreated together at every viewport size.
#[derive(Clone, Copy, Debug, PartialEq, Eq, Structural)]
pub struct MultisampledFramebuffer {
    /// The multisampled render target.
    pub texture_view: TextureDesc,
    /// The single-sample intermediate the resolve writes, kept in linear
    /// colour to dodge driver defects in sRGB multisample resolves.
    pub no_srgb_texture_view: TextureDesc,
}

impl MultisampledFramebuffer {
    /// Both targets share one extent and linear colour; only the render
    /// target is multisampled.
    pub open spec fn wf(self) -> bool {
        self.texture_view.width == self.no_srgb_texture_view.width
            && self.texture_view.height == self.no_srgb_texture_view.height
            && self.texture_view.format == TextureFormat::Rgba8Unorm
            && self.no_srgb_texture_view.format == TextureFormat::Rgba8Unorm
            && self.no_srgb_texture_view.sample_count == 1
    }

    /// Create the pair for a viewport: the render target at the given
    /// sample count, the intermediate single-sample, both at the viewport's
    /// extent.
    pub fn new(width: u32, height: u32, sample_count: u32) -> (f: MultisampledFramebuffer)
        ensures
            f.wf(),
            f.texture_view == (TextureDesc {
                width,
                height,
                sample_count,
                layer_count: 1,
                format: TextureFormat::Rgba8Unorm,
            }),
            f.no_srgb_texture_view == (TextureDesc {
                width,
                height,
                sample_count: 1,
                layer_count: 1,
                format: TextureFormat::Rgba8Unorm,
            }),
    {
        MultisampledFramebuffer {
            texture_view: TextureDesc {
                width,
                height,
                sample_count,
                layer_count: 1,
                format: TextureFormat::Rgba8Unorm,
            },
            no_srgb_texture_view: TextureDesc {
                width,
                height,
                sample_count: 1,
                layer_count: 1,
                format: TextureFormat::Rgba8Unorm,
            },
        }
    }
}

} // verus!
