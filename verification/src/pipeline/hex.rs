//! The hex pipeline: turns tiles into per-instance transforms over the hex
//! prism mesh, and owns that pipeline's camera uniform and instance buffer.

use vstd::prelude::*;
use crate::camera::Camera;
use crate::mesh::{hex_mesh, spec_hex_indices, spec_hex_vertices, Mesh};
use crate::pipeline::{CapacityError, IndexedDraw, InstanceBuffer, INSTANCE_CAPACITY};
use crate::terrain::Tile;
use crate::texture::{Texture, TextureFormat};

verus! {

/// One tile's instance record: where the prism stands, how far its sides
/// stretch, and which texture layers it samples. Positions are thousandths.
#[derive(Clone, Copy, Debug, PartialEq, Eq, Structural)]
pub struct TileInstance {
    /// Horizontal position: the hex column pitch is √3/2 per half-step,
    /// carried as 0.866.
    pub x_milli: i64,
    /// Depth position: rows advance by 1.5.
    pub y_milli: i64,
    /// Height: the tile's elevation.
    pub z_milli: i64,
    /// Vertical stretch of the prism sides.
    pub butt_size_milli: i64,
    /// Texture layer of the top face.
    pub hat: u32,
    /// Texture layer of the sides.
    pub butt: u32,
}

/// The placement a tile gets: odd rows are shifted half a column, so
/// `x = (2·column + row mod 2) · 0.866` and `y = row · 1.5`, with the
/// elevation as height and the texture layers carried through.
pub open spec fn spec_tile_instance(t: Tile) -> TileInstance {
    TileInstance {
        x_milli: ((2 * (t.x as int) + (t.y as int) % 2) * 866) as i64,
        y_milli: ((t.y as int) * 1500) as i64,
        z_milli: t.elevation_milli,
        butt_size_milli: t.butt_size_milli,
        hat: t.hat,
        butt: t.butt,
    }
}

/// Compute one tile's instance record.
pub fn tile_instance(t: &Tile) -> (r: TileInstance)
    ensures
        r == spec_tile_instance(*t),
{
    TileInstance {
        x_milli: (2 * (t.x as i64) + (t.y % 2) as i64) * 866,
        y_milli: (t.y as i64) * 1500,
        z_milli: t.elevation_milli,
        butt_size_milli: t.butt_size_milli,
        hat: t.hat,
        butt: t.butt,
    }
}

/// The hex pipeline's resources: the prism mesh, the four-layer tile
/// texture array, the camera uniform mirror, and the tile instance buffer.
pub struct Hex {
    pub mesh: Mesh,
    /// The texture array the tiles sample: the two hat/butt pairs the layer
    /// indices 0 to 3 select from.
    pub diffuse_texture: Texture,
    pub uniform: Camera,
    pub instances: InstanceBuffer<TileInstance>,
}

impl Hex {
    /// The pipeline invariant: a sound mesh, a sampleable texture array
    /// with a layer for every index a tile may carry, and a bounded
    /// instance buffer.
    pub open spec fn wf(self) -> bool {
        self.mesh.wf() && self.instances.wf() && self.instances.capacity_spec()
            == INSTANCE_CAPACITY && self.diffuse_texture.desc.layer_count == 4
            && self.diffuse_texture.desc.sample_count == 1
            && self.diffuse_texture.desc.format == TextureFormat::Rgba8UnormSrgb
    }

    /// A fresh pipeline: the hex prism mesh, the given tile texture array
    /// and camera, an empty buffer with the fixed capacity.
    pub fn new(camera: &Camera, diffuse_texture: Texture) -> (p: Hex)
        requires
            diffuse_texture.desc.layer_count == 4,
            diffuse_texture.desc.sample_count == 1,
            diffuse_texture.desc.format == TextureFormat::Rgba8UnormSrgb,
        ensures
            p.wf(),
            p.uniform == *camera,
            p.diffuse_texture == diffuse_texture,
            p.instances.contents() =~= Seq::<TileInstance>::empty(),
            p.mesh.vertices@ == spec_hex_vertices(),
            p.mesh.indices@ == spec_hex_indices(),
    {
        Hex {
            mesh: hex_mesh(),
            diffuse_texture,
            uniform: *camera,
            instances: InstanceBuffer::new(INSTANCE_CAPACITY),
        }
    }

    /// Re-upload the camera uniform (done unconditionally every frame).
    pub fn set_camera(&mut self, camera: &Camera)
        requires
            old(self).wf(),
        ensures
            final(self).wf(),
            final(self).uniform == *camera,
            final(self).mesh == old(self).mesh,
            final(self).diffuse_texture == old(self).diffuse_texture,
            final(self).instances.contents() == old(self).instances.contents(),
            final(self).instances.capacity_spec() == old(self).instances.capacity_spec(),
    {
        self.uniform = *camera;
    }

    /// Upload a tile layout: each tile becomes its instance record, in
    /// order. A layout beyond the buffer's capacity is rejected whole.
    pub fn set_tiles(&mut self, tiles: &Vec<Tile>) -> (r: Result<(), CapacityError>)
        requires
            old(self).wf(),
        ensures
            final(self).wf(),
            final(self).uniform == old(self).uniform,
            final(self).mesh == old(self).mesh,
            final(self).diffuse_texture == old(self).diffuse_texture,
            tiles@.len() <= INSTANCE_CAPACITY ==> r is Ok && final(self).instances.contents()
                == tiles@.map_values(|t: Tile| spec_tile_instance(t)),
            tiles@.len() > INSTANCE_CAPACITY ==> final(self).instances.contents() == old(
                self,
            ).instances.contents() && (r matches Err(e) && e.requested == tiles@.len()
                && e.capacity == INSTANCE_CAPACITY),
    {
        let mut records: Vec<TileInstance> = Vec::new();
        let mut i: usize = 0;
        while i < tiles.len()
            invariant
                i <= tiles.len(),
                records@ =~= tiles@.take(i as int).map_values(|t: Tile| spec_tile_instance(t)),
            decreases tiles.len() - i,
        {
            records.push(tile_instance(&tiles[i]));
            proof {
                assert(tiles@.take(i + 1).drop_last() =~= tiles@.take(i as int));
                assert(records@ =~= tiles@.take(i + 1).map_values(
                    |t: Tile| spec_tile_instance(t),
                ));
            }
            i = i + 1;
        }
        proof {
            assert(tiles@.take(tiles@.len() as int) =~= tiles@);
        }
        self.instances.upload(records)
    }

    /// The draw call the pass records: the whole prism index list, once per
    /// uploaded tile.
    pub fn render(&self) -> (d: IndexedDraw)
        requires
            self.wf(),
            self.mesh.indices@ == spec_hex_indices(),
        ensures
            d.index_count == spec_hex_indices().len(),
            d.instance_count == self.instances.contents().len(),
    {
        IndexedDraw {
            index_count: self.mesh.indices.len() as u32,
            instance_count: self.instances.count() as u32,
        }
    }
}

} // verus!
