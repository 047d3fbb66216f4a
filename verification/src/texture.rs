//! Texture resources, modelled by their descriptors.
//!
//! A layered texture array is built from embedded image files; decoding is
//! the image codec's business, but the array's well-formedness rule is
//! proved here: every layer must decode, and every layer must have the same
//! pixel dimensions as the first, else construction reports exactly which
//! layer broke the rule. The depth buffer is a descriptor the compositor
//! recreates on every resize.

use vstd::prelude::*;

verus! {

/// The pixel formats the scene uses.
#[derive(Clone, Copy, Debug, PartialEq, Eq, Structural)]
pub enum TextureFormat {
    /// Linear colour, used by the multisampled target and the intermediate.
    Rgba8Unorm,
    /// Gamma-encoded colour, used by texture arrays sampled in shaders.
    Rgba8UnormSrgb,
    /// The swapchain's gamma-encoded colour layout.
    Bgra8UnormSrgb,
    /// The depth buffer.
    Depth32Float,
}

/// What a device texture was created as: extent, multisampling, layers and
/// format.
#[derive(Clone, Copy, Debug, PartialEq, Eq, Structural)]
pub struct TextureDesc {
    pub width: u32,
    pub height: u32,
    pub sample_count: u32,
    pub layer_count: u32,
    pub format: TextureFormat,
}

/// Why a texture array could not be built.
#[derive(Clone, Copy, Debug, PartialEq, Eq, Structural)]
pub enum TextureError {
    /// No layers were given.
    NoImages,
    /// The layer at this position is not a decodable image.
    DecodeFailed { index: usize },
    /// The layer at this position decodes to a size other than the first
    /// layer's.
    DimensionMismatch { index: usize },
}

/// The pixel dimensions a byte buffer decodes to, or nothing when it is not
/// a decodable image.
pub uninterp spec fn image_size_of(bytes: Seq<u8>) -> Option<(u32, u32)>;

/// Relies on image::load_from_memory (and DynamicImage::width / height):
/// whether a byte buffer decodes as an image, and at what pixel dimensions,
/// is a function of the bytes alone.
#[verifier::external_body]
fn decode_image_size(bytes: &Vec<u8>) -> (r: Option<(u32, u32)>)
    ensures
        r == image_size_of(bytes@),
{
    match image::load_from_memory(bytes.as_slice()) {
        Ok(img) => Some((img.width(), img.height())),
        Err(_) => None,
    }
}

/// Scan layers from position `i`, all earlier ones already known to decode
/// to (width, height): the verdict for the whole array.
pub open spec fn spec_scan_layers(
    layers: Seq<Seq<u8>>,
    width: u32,
    height: u32,
    i: nat,
) -> Result<TextureDesc, TextureError>
    decreases layers.len() - i,
{
    if i >= layers.len() {
        Ok(
            TextureDesc {
                width,
                height,
                sample_count: 1,
                layer_count: layers.len() as u32,
                format: TextureFormat::Rgba8UnormSrgb,
            },
        )
    } else {
        match image_size_of(layers[i as int]) {
            None => Err(TextureError::DecodeFailed { index: i as usize }),
            Some(d) => if d != (width, height) {
                Err(TextureError::DimensionMismatch { index: i as usize })
            } else {
                spec_scan_layers(layers, width, height, i + 1)
            },
        }
    }
}

/// The verdict for a stack of layer files: rejected when empty, when a
/// layer does not decode, or when a layer's size differs from the first's;
/// otherwise the descriptor of the array they form.
pub open spec fn spec_texture_array(layers: Seq<Seq<u8>>) -> Result<TextureDesc, TextureError> {
    if layers.len() == 0 {
        Err(TextureError::NoImages)
    } else {
        match image_size_of(layers[0]) {
            None => Err(TextureError::DecodeFailed { index: 0 }),
            Some(d) => spec_scan_layers(layers, d.0, d.1, 1),
        }
    }
}

/// A texture resource, stood for by its descriptor.
#[derive(Clone, Copy, Debug, PartialEq, Eq, Structural)]
pub struct Texture {
    pub desc: TextureDesc,
}

/// What `Texture::from_bytes` yields for a stack of layer files.
pub open spec fn spec_texture_from_bytes(layers: Seq<Seq<u8>>) -> Result<Texture, TextureError> {
    match spec_texture_array(layers) {
        Ok(d) => Ok(Texture { desc: d }),
        Err(e) => Err(e),
    }
}

impl Texture {
    /// Build a layered texture array from embedded image files. Succeeds
    /// exactly when there is at least one layer, every layer decodes, and
    /// all layers share the first layer's pixel dimensions; the error names
    /// the first offending layer.
    pub fn from_bytes(layers: &Vec<Vec<u8>>) -> (r: Result<Texture, TextureError>)
        requires
            layers@.len() <= 0xFFFF_FFFF,
        ensures
            r == spec_texture_from_bytes(layers@.map_values(|l: Vec<u8>| l@)),
    {
        let ghost ls = layers@.map_values(|l: Vec<u8>| l@);
        if layers.len() == 0 {
            return Err(TextureError::NoImages);
        }
        let first = decode_image_size(&layers[0]);
        match first {
            None => Err(TextureError::DecodeFailed { index: 0 }),
            Some(d) => {
                let (width, height) = d;
                let mut i: usize = 1;
                while i < layers.len()
                    invariant
                        1 <= i <= layers.len(),
                        ls == layers@.map_values(|l: Vec<u8>| l@),
                        ls.len() == layers@.len() <= 0xFFFF_FFFF,
                        spec_texture_array(ls) == spec_scan_layers(ls, width, height, i as nat),
                    decreases layers.len() - i,
                {
                    let size = decode_image_size(&layers[i]);
                    match size {
                        None => {
                            return Err(TextureError::DecodeFailed { index: i });
                        },
                        Some(s) => {
                            if !(s.0 == width && s.1 == height) {
                                return Err(TextureError::DimensionMismatch { index: i });
                            }
                        },
                    }
                    i = i + 1;
                }
                Ok(
                    Texture {
                        desc: TextureDesc {
                            width,
                            height,
                            sample_count: 1,
                            layer_count: layers.len() as u32,
                            format: TextureFormat::Rgba8UnormSrgb,
                        },
                    },
                )
            },
        }
    }

    /// The depth buffer for a viewport: same extent and sample count as the
    /// colour target it is depth-tested against.
    pub fn create_depth_texture(width: u32, height: u32, sample_count: u32) -> (t: Texture)
        ensures
            t.desc == (TextureDesc {
                width,
                height,
                sample_count,
                layer_count: 1,
                format: TextureFormat::Depth32Float,
            }),
    {
        Texture {
            desc: TextureDesc {
                width,
                height,
                sample_count,
                layer_count: 1,
                format: TextureFormat::Depth32Float,
            },
        }
    }
}

} // verus!
