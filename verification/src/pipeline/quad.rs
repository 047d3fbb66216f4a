//! The quad pipeline: turns sprites into per-instance records over the unit
//! quad mesh, and owns that pipeline's camera uniform and instance buffer.
//! The uniform carries the whole camera state, from which the shell also
//! derives the view-space basis vectors billboarding needs.

use vstd::prelude::*;
use crate::camera::Camera;
use crate::mesh::{quad_mesh, spec_quad_indices, spec_quad_vertices, Mesh};
use crate::pipeline::{CapacityError, IndexedDraw, InstanceBuffer, INSTANCE_CAPACITY};
use crate::sprite::Sprite;
use crate::texture::{Texture, TextureFormat};

verus! {

/// One sprite's instance record: position, scale and texture layer.
/// Positions and scales are thousandths.
#[derive(Clone, Copy, Debug, PartialEq, Eq, Structural)]
pub struct SpriteInstance {
    pub x_milli: i64,
    pub y_milli: i64,
    /// Sprites float a fixed 0.275 above the grid plane.
    pub z_milli: i64,
    pub scale_x_milli: i64,
    pub scale_y_milli: i64,
    /// Depth is never stretched.
    pub scale_z_milli: i64,
    /// Texture layer the sprite samples.
    pub image: u32,
}

/// The record a sprite gets: its position lifted to the fixed height, its
/// scale with unit depth, its texture layer carried through.
pub open spec fn spec_sprite_instance(s: Sprite) -> SpriteInstance {
    SpriteInstance {
        x_milli: s.x_milli,
        y_milli: s.y_milli,
        z_milli: 275,
        scale_x_milli: s.scale_x_milli,
        scale_y_milli: s.scale_y_milli,
        scale_z_milli: 1000,
        image: s.image,
    }
}

/// Compute one sprite's instance record.
pub fn sprite_instance(s: &Sprite) -> (r: SpriteInstance)
    ensures
        r == spec_sprite_instance(*s),
{
    SpriteInstance {
        x_milli: s.x_milli,
        y_milli: s.y_milli,
        z_milli: 275,
        scale_x_milli: s.scale_x_milli,
        scale_y_milli: s.scale_y_milli,
        scale_z_milli: 1000,
        image: s.image,
    }
}

/// The quad pipeline's resources: the quad mesh, the sprite texture array,
/// the camera uniform mirror, and the sprite instance buffer.
pub struct Quad {
    pub mesh: Mesh,
    /// The texture array the sprites' image indices select from.
    pub diffuse_texture: Texture,
    pub uniform: Camera,
    pub instances: InstanceBuffer<SpriteInstance>,
}

impl Quad {
    /// The pipeline invariant: a sound mesh, a sampleable texture array,
    /// and a bounded instance buffer.
    pub open spec fn wf(self) -> bool {
        self.mesh.wf() && self.instances.wf() && self.instances.capacity_spec()
            == INSTANCE_CAPACITY && self.diffuse_texture.desc.layer_count >= 1
            && self.diffuse_texture.desc.sample_count == 1
            && self.diffuse_texture.desc.format == TextureFormat::Rgba8UnormSrgb
    }

    /// A fresh pipeline: the unit quad mesh, the given sprite texture array
    /// and camera, an empty buffer with the fixed capacity.
    pub fn new(camera: &Camera, diffuse_texture: Texture) -> (p: Quad)
        requires
            diffuse_texture.desc.layer_count >= 1,
            diffuse_texture.desc.sample_count == 1,
            diffuse_texture.desc.format == TextureFormat::Rgba8UnormSrgb,
        ensures
            p.wf(),
            p.uniform == *camera,
            p.diffuse_texture == diffuse_texture,
            p.instances.contents() =~= Seq::<SpriteInstance>::empty(),
            p.mesh.vertices@ == spec_quad_vertices(),
            p.mesh.indices@ == spec_quad_indices(),
    {
        Quad {
            mesh: quad_mesh(),
            diffuse_texture,
            uniform: *camera,
            instances: InstanceBuffer::new(INSTANCE_CAPACITY),
        }
    }

    /// Re-upload the camera uniform (done unconditionally every frame).
    pub fn set_camera(&mut self, camera: &Camera)
        requires
            old(self).wf(),
        ensures
            final(self).wf(),
            final(self).uniform == *camera,
            final(self).mesh == old(self).mesh,
            final(self).diffuse_texture == old(self).diffuse_texture,
            final(self).instances.contents() == old(self).instances.contents(),
            final(self).instances.capacity_spec() == old(self).instances.capacity_spec(),
    {
        self.uniform = *camera;
    }

    /// Upload the sprite set: each sprite becomes its instance record, in
    /// order. A set beyond the buffer's capacity is rejected whole.
    pub fn set_sprites(&mut self, sprites: &Vec<Sprite>) -> (r: Result<(), CapacityError>)
        requires
            old(self).wf(),
        ensures
            final(self).wf(),
            final(self).uniform == old(self).uniform,
            final(self).mesh == old(self).mesh,
            final(self).diffuse_texture == old(self).diffuse_texture,
            sprites@.len() <= INSTANCE_CAPACITY ==> r is Ok && final(self).instances.contents()
                == sprites@.map_values(|s: Sprite| spec_sprite_instance(s)),
            sprites@.len() > INSTANCE_CAPACITY ==> final(self).instances.contents() == old(
                self,
            ).instances.contents() && (r matches Err(e) && e.requested == sprites@.len()
                && e.capacity == INSTANCE_CAPACITY),
    {
        let mut records: Vec<SpriteInstance> = Vec::new();
        let mut i: usize = 0;
        while i < sprites.len()
            invariant
                i <= sprites.len(),
                records@ =~= sprites@.take(i as int).map_values(
                    |s: Sprite| spec_sprite_instance(s),
                ),
            decreases sprites.len() - i,
        {
            records.push(sprite_instance(&sprites[i]));
            proof {
                assert(sprites@.take(i + 1).drop_last() =~= sprites@.take(i as int));
                assert(records@ =~= sprites@.take(i + 1).map_values(
                    |s: Sprite| spec_sprite_instance(s),
                ));
            }
            i = i + 1;
        }
        proof {
            assert(sprites@.take(sprites@.len() as int) =~= sprites@);
        }
        self.instances.upload(records)
    }

    /// The draw call the pass records: both quad triangles, once per
    /// uploaded sprite.
    pub fn render(&self) -> (d: IndexedDraw)
        requires
            self.wf(),
            self.mesh.indices@ == spec_quad_indices(),
        ensures
            d.index_count == spec_quad_indices().len(),
            d.instance_count == self.instances.contents().len(),
    {
        IndexedDraw {
            index_count: self.mesh.indices.len() as u32,
            instance_count: self.instances.count() as u32,
        }
    }
}

} // verus!
