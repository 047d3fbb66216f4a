//! Reference meshes: the hexagonal prism every tile instances, and the unit
//! quad every sprite instances.
//!
//! Vertex positions and texture coordinates are exact integers in millionths
//! (the prism's half-width is √3/2, carried as 0.866025). What matters for a
//! draw call to be sound is proved of both meshes: every index points at a
//! vertex, and the indices come in whole triangles.

use vstd::prelude::*;

verus! {

/// One mesh vertex: position and texture coordinates in millionths.
#[derive(Clone, Copy, Debug, PartialEq, Eq, Structural)]
pub struct Vertex {
    pub x_micro: i32,
    pub y_micro: i32,
    pub z_micro: i32,
    pub u_micro: u32,
    pub v_micro: u32,
}

/// An indexed triangle mesh.
#[derive(Clone, Debug)]
pub struct Mesh {
    pub vertices: Vec<Vertex>,
    pub indices: Vec<u16>,
}

impl Mesh {
    /// A mesh a draw call may consume: whole triangles, every index in
    /// range.
    pub open spec fn wf(self) -> bool {
        self.indices@.len() % 3 == 0 && forall|i: int|
            0 <= i < self.indices@.len() ==> (#[trigger] self.indices@[i]) < self.vertices@.len()
    }
}

/// The hex prism's 19 vertices: a 7-vertex top fan, then the 6 rim vertices
/// repeated with side texture coordinates, then the same 6 again at the
/// bottom of the prism.
pub open spec fn spec_hex_vertices() -> Seq<Vertex> {
    seq![
        Vertex { x_micro: 0, y_micro: 0, z_micro: 0, u_micro: 250000, v_micro: 250000 },
        Vertex { x_micro: 866025, y_micro: -500000i32, z_micro: 0, u_micro: 466506, v_micro: 125000 },
        Vertex { x_micro: 0, y_micro: -1000000i32, z_micro: 0, u_micro: 250000, v_micro: 0 },
        Vertex { x_micro: -866025i32, y_micro: -500000i32, z_micro: 0, u_micro: 33494, v_micro: 125000 },
        Vertex { x_micro: -866025i32, y_micro: 500000, z_micro: 0, u_micro: 33494, v_micro: 375000 },
        Vertex { x_micro: 0, y_micro: 1000000, z_micro: 0, u_micro: 250000, v_micro: 500000 },
        Vertex { x_micro: 866025, y_micro: 500000, z_micro: 0, u_micro: 466506, v_micro: 375000 },
        Vertex { x_micro: 866025, y_micro: -500000i32, z_micro: 0, u_micro: 500000, v_micro: 0 },
        Vertex { x_micro: 0, y_micro: -1000000i32, z_micro: 0, u_micro: 1000000, v_micro: 0 },
        Vertex { x_micro: -866025i32, y_micro: -500000i32, z_micro: 0, u_micro: 500000, v_micro: 0 },
        Vertex { x_micro: -866025i32, y_micro: 500000, z_micro: 0, u_micro: 1000000, v_micro: 0 },
        Vertex { x_micro: 0, y_micro: 1000000, z_micro: 0, u_micro: 500000, v_micro: 0 },
        Vertex { x_micro: 866025, y_micro: 500000, z_micro: 0, u_micro: 1000000, v_micro: 0 },
        Vertex {
            x_micro: 866025,
            y_micro: -500000i32,
            z_micro: -1000000i32,
            u_micro: 500000,
            v_micro: 500000,
        },
        Vertex {
            x_micro: 0,
            y_micro: -1000000i32,
            z_micro: -1000000i32,
            u_micro: 1000000,
            v_micro: 500000,
        },
        Vertex {
            x_micro: -866025i32,
            y_micro: -500000i32,
            z_micro: -1000000i32,
            u_micro: 500000,
            v_micro: 500000,
        },
        Vertex {
            x_micro: -866025i32,
            y_micro: 500000,
            z_micro: -1000000i32,
            u_micro: 1000000,
            v_micro: 500000,
        },
        Vertex { x_micro: 0, y_micro: 1000000, z_micro: -1000000i32, u_micro: 500000, v_micro: 500000 },
        Vertex {
            x_micro: 866025,
            y_micro: 500000,
            z_micro: -1000000i32,
            u_micro: 1000000,
            v_micro: 500000,
        },
    ]
}

/// The hex prism's 54 indices: 6 top triangles fanned around the centre,
/// then 12 side triangles, two per rim edge.
pub open spec fn spec_hex_indices() -> Seq<u16> {
    seq![
        0u16, 1, 2, 0, 2, 3, 0, 3, 4, 0, 4, 5, 0, 5, 6, 0, 6, 1, 7, 14, 8, 7, 13, 14, 8, 15, 9, 8,
        14, 15, 9, 16, 10, 9, 15, 16, 10, 17, 11, 10, 16, 17, 11, 18, 12, 11, 17, 18, 12, 13, 7,
        12, 18, 13,
    ]
}

/// The unit quad's 4 corner vertices.
pub open spec fn spec_quad_vertices() -> Seq<Vertex> {
    seq![
        Vertex { x_micro: -500000i32, y_micro: -500000i32, z_micro: 0, u_micro: 0, v_micro: 0 },
        Vertex { x_micro: 500000, y_micro: -500000i32, z_micro: 0, u_micro: 0, v_micro: 0 },
        Vertex { x_micro: 500000, y_micro: 500000, z_micro: 0, u_micro: 0, v_micro: 0 },
        Vertex { x_micro: -500000i32, y_micro: 500000, z_micro: 0, u_micro: 0, v_micro: 0 },
    ]
}

/// The unit quad's 6 indices: two triangles.
pub open spec fn spec_quad_indices() -> Seq<u16> {
    seq![2u16, 1, 0, 0, 3, 2]
}

fn push_vertex(
    v: &mut Vec<Vertex>,
    x_micro: i32,
    y_micro: i32,
    z_micro: i32,
    u_micro: u32,
    v_micro: u32,
)
    ensures
        final(v)@ == old(v)@.push(Vertex { x_micro, y_micro, z_micro, u_micro, v_micro }),
{
    v.push(Vertex { x_micro, y_micro, z_micro, u_micro, v_micro });
}

/// Build the hex prism mesh. It is well formed: whole triangles, every
/// index among the 19 vertices.
pub fn hex_mesh() -> (m: Mesh)
    ensures
        m.vertices@ == spec_hex_vertices(),
        m.indices@ == spec_hex_indices(),
        m.wf(),
{
    let mut vertices: Vec<Vertex> = Vec::new();
    push_vertex(&mut vertices, 0, 0, 0, 250000, 250000);
    push_vertex(&mut vertices, 866025, -500000, 0, 466506, 125000);
    push_vertex(&mut vertices, 0, -1000000, 0, 250000, 0);
    push_vertex(&mut vertices, -866025, -500000, 0, 33494, 125000);
    push_vertex(&mut vertices, -866025, 500000, 0, 33494, 375000);
    push_vertex(&mut vertices, 0, 1000000, 0, 250000, 500000);
    push_vertex(&mut vertices, 866025, 500000, 0, 466506, 375000);
    push_vertex(&mut vertices, 866025, -500000, 0, 500000, 0);
    push_vertex(&mut vertices, 0, -1000000, 0, 1000000, 0);
    push_vertex(&mut vertices, -866025, -500000, 0, 500000, 0);
    push_vertex(&mut vertices, -866025, 500000, 0, 1000000, 0);
    push_vertex(&mut vertices, 0, 1000000, 0, 500000, 0);
    push_vertex(&mut vertices, 866025, 500000, 0, 1000000, 0);
    push_vertex(&mut vertices, 866025, -500000, -1000000, 500000, 500000);
    push_vertex(&mut vertices, 0, -1000000, -1000000, 1000000, 500000);
    push_vertex(&mut vertices, -866025, -500000, -1000000, 500000, 500000);
    push_vertex(&mut vertices, -866025, 500000, -1000000, 1000000, 500000);
    push_vertex(&mut vertices, 0, 1000000, -1000000, 500000, 500000);
    push_vertex(&mut vertices, 866025, 500000, -1000000, 1000000, 500000);
    let index_list: [u16; 54] = [
        0, 1, 2, 0, 2, 3, 0, 3, 4, 0, 4, 5, 0, 5, 6, 0, 6, 1, 7, 14, 8, 7, 13, 14, 8, 15, 9, 8,
        14, 15, 9, 16, 10, 9, 15, 16, 10, 17, 11, 10, 16, 17, 11, 18, 12, 11, 17, 18, 12, 13, 7,
        12, 18, 13,
    ];
    let mut indices: Vec<u16> = Vec::new();
    let mut i: usize = 0;
    while i < 54
        invariant
            i <= 54,
            indices@ =~= spec_hex_indices().take(i as int),
            index_list@ =~= spec_hex_indices(),
        decreases 54 - i,
    {
        indices.push(index_list[i]);
        proof {
            assert(indices@ =~= spec_hex_indices().take(i + 1));
        }
        i = i + 1;
    }
    let m = Mesh { vertices, indices };
    proof {
        assert(m.vertices@ =~= spec_hex_vertices());
        assert(m.indices@ =~= spec_hex_indices());
        assert forall|j: int| 0 <= j < m.indices@.len() implies (#[trigger] m.indices@[j])
            < m.vertices@.len() by {
            assert(m.indices@[j] == spec_hex_indices()[j]);
        }
    }
    m
}

/// Build the unit quad mesh. It is well formed: two triangles over the 4
/// vertices.
pub fn quad_mesh() -> (m: Mesh)
    ensures
        m.vertices@ == spec_quad_vertices(),
        m.indices@ == spec_quad_indices(),
        m.wf(),
{
    let mut vertices: Vec<Vertex> = Vec::new();
    push_vertex(&mut vertices, -500000, -500000, 0, 0, 0);
    push_vertex(&mut vertices, 500000, -500000, 0, 0, 0);
    push_vertex(&mut vertices, 500000, 500000, 0, 0, 0);
    push_vertex(&mut vertices, -500000, 500000, 0, 0, 0);
    let mut indices: Vec<u16> = Vec::new();
    indices.push(2);
    indices.push(1);
    indices.push(0);
    indices.push(0);
    indices.push(3);
    indices.push(2);
    let m = Mesh { vertices, indices };
    proof {
        assert(m.vertices@ =~= spec_quad_vertices());
        assert(m.indices@ =~= spec_quad_indices());
    }
    m
}

} // verus!
