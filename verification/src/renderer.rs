//! The renderer model: ownership and lockstep lifecycle of the frame
//! resources, the per-frame upload operations, and the composition plan of
//! one frame.
//!
//! The shell that owns the real device performs what is planned here; this
//! model pins down the rules: all frame-sized resources are recreated
//! together on resize, uploads respect the instance buffers' capacity, the
//! world pass resolves through the linear intermediate exactly when
//! multisampling is on, and a frame whose swapchain image could not be
//! acquired is dropped rather than aborting the process.

use vstd::prelude::*;
use crate::camera::Camera;
use crate::mesh::{spec_hex_indices, spec_hex_vertices, spec_quad_indices, spec_quad_vertices};
use crate::multisampled_framebuffer::MultisampledFramebuffer;
use crate::pipeline::{CapacityError, IndexedDraw, PlainDraw, INSTANCE_CAPACITY};
use crate::pipeline::hex::{spec_tile_instance, Hex};
use crate::pipeline::quad::{spec_sprite_instance, Quad};
use crate::sprite::Sprite;
use crate::terrain::Tile;
use crate::texture::{Texture, TextureDesc, TextureFormat};

verus! {

/// Renderer configuration: the multisample count and the camera the
/// pipelines start from.
#[derive(Clone, Copy, Debug, PartialEq, Eq, Structural)]
pub struct Config {
    /// Samples per pixel of the world pass; 1 switches multisampling off.
    pub msaa: u32,
    /// The camera the pipelines' uniforms start from.
    pub camera: Camera,
}

/// The fullscreen-triangle pass that copies the linear intermediate onto
/// the swapchain image with colour-space correction.
#[derive(Clone, Copy, Debug, PartialEq, Eq, Structural)]
pub struct NoSrgb {
    /// The intermediate it samples.
    pub no_srgb_framebuffer: TextureDesc,
}

impl NoSrgb {
    /// Wire the pass to the intermediate target.
    pub fn new(framebuffer: TextureDesc) -> (p: NoSrgb)
        ensures
            p.no_srgb_framebuffer == framebuffer,
    {
        NoSrgb { no_srgb_framebuffer: framebuffer }
    }

    /// Point the pass at a freshly created intermediate (done on resize).
    pub fn resize(&mut self, framebuffer: TextureDesc)
        ensures
            final(self).no_srgb_framebuffer == framebuffer,
    {
        self.no_srgb_framebuffer = framebuffer;
    }

    /// The pass's draw call: one fullscreen triangle.
    pub fn render(&self) -> (d: PlainDraw)
        ensures
            d == (PlainDraw { vertex_count: 3, instance_count: 1 }),
    {
        PlainDraw { vertex_count: 3, instance_count: 1 }
    }
}

/// What the compositor does with one acquired frame, in pass order: the
/// world pass (hex tiles, then sprite quads), then the colour-space-correct
/// copy onto the swapchain image, then the GUI overlay drawn by the
/// toolkit.
#[derive(Clone, Copy, Debug, PartialEq, Eq, Structural)]
pub struct FramePlan {
    /// Whether the world pass draws the multisampled target and resolves
    /// into the intermediate; with multisampling off it draws the
    /// intermediate directly.
    pub world_multisampled: bool,
    /// The world pass's tile draw.
    pub hex_draw: IndexedDraw,
    /// The world pass's sprite draw.
    pub quad_draw: IndexedDraw,
    /// The copy onto the swapchain image.
    pub resolve_draw: PlainDraw,
}

/// The renderer: configuration, the two world pipelines, the resolve pass,
/// and the frame-sized resources that live and die together.
pub struct Renderer {
    pub config: Config,
    pub hex_pipeline: Hex,
    pub quad_pipeline: Quad,
    pub fullscreen_triangle_pipeline: NoSrgb,
    /// The multisampled colour target.
    pub framebuffer: TextureDesc,
    /// The depth buffer, recreated with the colour targets.
    pub depth_texture: Texture,
    /// The swapchain extent.
    pub width: u32,
    pub height: u32,
}

impl Renderer {
    /// The resource invariant: both pipelines sound and carrying their
    /// reference meshes; every frame-sized target at the swapchain extent;
    /// the multisampled target and the depth buffer at the configured
    /// sample count; the intermediate single-sample and linear.
    pub open spec fn wf(self) -> bool {
        &&& self.hex_pipeline.wf()
        &&& self.hex_pipeline.mesh.vertices@ == spec_hex_vertices()
        &&& self.hex_pipeline.mesh.indices@ == spec_hex_indices()
        &&& self.quad_pipeline.wf()
        &&& self.quad_pipeline.mesh.vertices@ == spec_quad_vertices()
        &&& self.quad_pipeline.mesh.indices@ == spec_quad_indices()
        &&& self.framebuffer == (TextureDesc {
            width: self.width,
            height: self.height,
            sample_count: self.config.msaa,
            layer_count: 1,
            format: TextureFormat::Rgba8Unorm,
        })
        &&& self.fullscreen_triangle_pipeline.no_srgb_framebuffer == (TextureDesc {
            width: self.width,
            height: self.height,
            sample_count: 1,
            layer_count: 1,
            format: TextureFormat::Rgba8Unorm,
        })
        &&& self.depth_texture.desc == (TextureDesc {
            width: self.width,
            height: self.height,
            sample_count: self.config.msaa,
            layer_count: 1,
            format: TextureFormat::Depth32Float,
        })
    }

    /// A fresh renderer for a swapchain of the given extent: colour and
    /// depth targets created at that extent, pipelines created on the
    /// configured camera and the decoded texture arrays (the tiles' four
    /// hat/butt layers, and the sprite images), with empty instance
    /// buffers.
    pub fn new(
        width: u32,
        height: u32,
        config: Config,
        hex_texture: Texture,
        quad_texture: Texture,
    ) -> (r: Renderer)
        requires
            hex_texture.desc.layer_count == 4,
            hex_texture.desc.sample_count == 1,
            hex_texture.desc.format == TextureFormat::Rgba8UnormSrgb,
            quad_texture.desc.layer_count >= 1,
            quad_texture.desc.sample_count == 1,
            quad_texture.desc.format == TextureFormat::Rgba8UnormSrgb,
        ensures
            r.wf(),
            r.config == config,
            r.width == width,
            r.height == height,
            r.hex_pipeline.uniform == config.camera,
            r.quad_pipeline.uniform == config.camera,
            r.hex_pipeline.diffuse_texture == hex_texture,
            r.quad_pipeline.diffuse_texture == quad_texture,
            r.hex_pipeline.instances.contents().len() == 0,
            r.quad_pipeline.instances.contents().len() == 0,
    {
        let framebuffer = MultisampledFramebuffer::new(width, height, config.msaa);
        let depth_texture = Texture::create_depth_texture(width, height, config.msaa);
        let hex_pipeline = Hex::new(&config.camera, hex_texture);
        let quad_pipeline = Quad::new(&config.camera, quad_texture);
        let fullscreen_triangle_pipeline = NoSrgb::new(framebuffer.no_srgb_texture_view);
        Renderer {
            config,
            hex_pipeline,
            quad_pipeline,
            fullscreen_triangle_pipeline,
            framebuffer: framebuffer.texture_view,
            depth_texture,
            width,
            height,
        }
    }

    /// The swapchain extent.
    pub fn screen_size(&self) -> (s: (u32, u32))
        ensures
            s.0 == self.width,
            s.1 == self.height,
    {
        (self.width, self.height)
    }

    /// Adopt a new swapchain extent: depth buffer, multisampled target and
    /// intermediate are all recreated at the new extent, in lockstep, with
    /// the sample count kept; uploads survive untouched.
    pub fn resize(&mut self, width: u32, height: u32)
        requires
            old(self).wf(),
        ensures
            final(self).wf(),
            final(self).width == width,
            final(self).height == height,
            final(self).config == old(self).config,
            final(self).hex_pipeline.uniform == old(self).hex_pipeline.uniform,
            final(self).quad_pipeline.uniform == old(self).quad_pipeline.uniform,
            final(self).hex_pipeline.diffuse_texture == old(self).hex_pipeline.diffuse_texture,
            final(self).quad_pipeline.diffuse_texture == old(self).quad_pipeline.diffuse_texture,
            final(self).hex_pipeline.instances.contents() == old(
                self,
            ).hex_pipeline.instances.contents(),
            final(self).quad_pipeline.instances.contents() == old(
                self,
            ).quad_pipeline.instances.contents(),
    {
        self.width = width;
        self.height = height;
        self.depth_texture = Texture::create_depth_texture(width, height, self.config.msaa);
        let framebuffer = MultisampledFramebuffer::new(width, height, self.config.msaa);
        self.fullscreen_triangle_pipeline.resize(framebuffer.no_srgb_texture_view);
        self.framebuffer = framebuffer.texture_view;
    }

    /// Upload a tile layout to the hex pipeline. A layout beyond the
    /// instance capacity is rejected whole, never truncated.
    pub fn set_tiles(&mut self, tiles: &Vec<Tile>) -> (r: Result<(), CapacityError>)
        requires
            old(self).wf(),
        ensures
            final(self).wf(),
            final(self).config == old(self).config,
            final(self).width == old(self).width,
            final(self).height == old(self).height,
            final(self).quad_pipeline.instances.contents() == old(
                self,
            ).quad_pipeline.instances.contents(),
            tiles@.len() <= INSTANCE_CAPACITY ==> r is Ok
                && final(self).hex_pipeline.instances.contents() == tiles@.map_values(
                |t: Tile| spec_tile_instance(t),
            ),
            tiles@.len() > INSTANCE_CAPACITY ==> final(self).hex_pipeline.instances.contents()
                == old(self).hex_pipeline.instances.contents() && (r matches Err(e) && e.requested
                == tiles@.len() && e.capacity == INSTANCE_CAPACITY),
    {
        self.hex_pipeline.set_tiles(tiles)
    }

    /// Upload the sprite set to the quad pipeline, under the same capacity
    /// rule.
    pub fn set_sprites(&mut self, sprites: &Vec<Sprite>) -> (r: Result<(), CapacityError>)
        requires
            old(self).wf(),
        ensures
            final(self).wf(),
            final(self).config == old(self).config,
            final(self).width == old(self).width,
            final(self).height == old(self).height,
            final(self).hex_pipeline.instances.contents() == old(
                self,
            ).hex_pipeline.instances.contents(),
            sprites@.len() <= INSTANCE_CAPACITY ==> r is Ok
                && final(self).quad_pipeline.instances.contents() == sprites@.map_values(
                |s: Sprite| spec_sprite_instance(s),
            ),
            sprites@.len() > INSTANCE_CAPACITY ==> final(self).quad_pipeline.instances.contents()
                == old(self).quad_pipeline.instances.contents() && (r matches Err(e)
                && e.requested == sprites@.len() && e.capacity == INSTANCE_CAPACITY),
    {
        self.quad_pipeline.set_sprites(sprites)
    }

    /// Re-upload the camera uniform of both pipelines.
    pub fn set_camera(&mut self, camera: &Camera)
        requires
            old(self).wf(),
        ensures
            final(self).wf(),
            final(self).config == old(self).config,
            final(self).width == old(self).width,
            final(self).height == old(self).height,
            final(self).hex_pipeline.uniform == *camera,
            final(self).quad_pipeline.uniform == *camera,
            final(self).hex_pipeline.instances.contents() == old(
                self,
            ).hex_pipeline.instances.contents(),
            final(self).quad_pipeline.instances.contents() == old(
                self,
            ).quad_pipeline.instances.contents(),
    {
        self.hex_pipeline.set_camera(camera);
        self.quad_pipeline.set_camera(camera);
    }

    /// Compose one frame. When the swapchain image was acquired, the plan
    /// draws both pipelines' uploads in the world pass — through the
    /// multisample-and-resolve path exactly when multisampling is on — and
    /// copies the intermediate onto the image with the fullscreen triangle.
    /// When acquisition failed (a timeout), the frame is dropped: no plan,
    /// no abort.
    pub fn render(&self, frame_acquired: bool) -> (r: Option<FramePlan>)
        requires
            self.wf(),
        ensures
            r is Some <==> frame_acquired,
            (r matches Some(p) ==> p == (FramePlan {
                world_multisampled: self.config.msaa != 1,
                hex_draw: IndexedDraw {
                    index_count: spec_hex_indices().len() as u32,
                    instance_count: self.hex_pipeline.instances.contents().len() as u32,
                },
                quad_draw: IndexedDraw {
                    index_count: spec_quad_indices().len() as u32,
                    instance_count: self.quad_pipeline.instances.contents().len() as u32,
                },
                resolve_draw: PlainDraw { vertex_count: 3, instance_count: 1 },
            })),
    {
        if !frame_acquired {
            return None;
        }
        let hex_draw = self.hex_pipeline.render();
        let quad_draw = self.quad_pipeline.render();
        let resolve_draw = self.fullscreen_triangle_pipeline.render();
        Some(
            FramePlan {
                world_multisampled: self.config.msaa != 1,
                hex_draw,
                quad_draw,
                resolve_draw,
            },
        )
    }
}

} // verus!
