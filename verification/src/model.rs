//! Mesh model: assembling vertices from the flat attribute streams a
//! Wavefront-style loader produces, and the draw decision for a loaded
//! mesh.
//!
//! The assembly is generic in the scalar type, so the geometry logic is
//! verified once and the host program instantiates it with its float
//! scalar. Single-index mode: one index list, every attribute stream
//! indexed per vertex.

use vstd::prelude::*;

verus! {

/// A three-component vector of scalars.
#[derive(Debug, Clone, Copy, PartialEq)]
pub struct Vec3<V> {
    pub x: V,
    pub y: V,
    pub z: V,
}

/// A two-component vector of scalars.
#[derive(Debug, Clone, Copy, PartialEq)]
pub struct Vec2<V> {
    pub x: V,
    pub y: V,
}

/// One assembled vertex: position, color (or the default when the stream
/// ends early), normal, and texture coordinates.
#[derive(Debug, Clone, Copy, PartialEq)]
pub struct Vertex<V> {
    pub position: Vec3<V>,
    pub color: Vec3<V>,
    pub normal: Vec3<V>,
    pub uv: Vec2<V>,
}

/// The vertex at index `i`, read from the flat streams: three positions
/// and normals per vertex, two texture coordinates, and three colors when
/// the color stream still covers this vertex, else `default_color`.
pub open spec fn spec_vertex_at<V>(
    positions: Seq<V>,
    colors: Seq<V>,
    normals: Seq<V>,
    uvs: Seq<V>,
    default_color: Vec3<V>,
    i: int,
) -> Vertex<V> {
    Vertex {
        position: Vec3 { x: positions[3 * i], y: positions[3 * i + 1], z: positions[3 * i + 2] },
        color: if 3 * i + 2 < colors.len() {
            Vec3 { x: colors[3 * i], y: colors[3 * i + 1], z: colors[3 * i + 2] }
        } else {
            default_color
        },
        normal: Vec3 { x: normals[3 * i], y: normals[3 * i + 1], z: normals[3 * i + 2] },
        uv: Vec2 { x: uvs[2 * i], y: uvs[2 * i + 1] },
    }
}

/// Assembles one vertex per position triple. The color stream may end
/// early (vertices beyond it get `default_color`, conventionally white);
/// the normal and texture streams must cover every vertex.
pub fn assemble_mesh<V: Copy>(
    positions: &Vec<V>,
    colors: &Vec<V>,
    normals: &Vec<V>,
    uvs: &Vec<V>,
    default_color: Vec3<V>,
) -> (r: Vec<Vertex<V>>)
    requires
        positions@.len() % 3 == 0,
        normals@.len() >= positions@.len(),
        uvs@.len() * 3 >= positions@.len() * 2,
    ensures
        r@.len() == positions@.len() / 3,
        forall|i: int|
            0 <= i < r@.len() ==> #[trigger] r@[i] == spec_vertex_at(
                positions@,
                colors@,
                normals@,
                uvs@,
                default_color,
                i,
            ),
{
    let vertex_count = positions.len() / 3;
    proof {
        assert(positions@.len() as int == 3 * (positions@.len() as int / 3)) by (nonlinear_arith)
            requires
                positions@.len() % 3 == 0,
        ;
    }
    let mut vertices: Vec<Vertex<V>> = Vec::new();
    let mut i: usize = 0;
    while i < vertex_count
        invariant
            positions@.len() % 3 == 0,
            positions@.len() <= usize::MAX,
            vertex_count == positions@.len() / 3,
            3 * (vertex_count as int) == positions@.len(),
            normals@.len() >= positions@.len(),
            uvs@.len() * 3 >= positions@.len() * 2,
            i <= vertex_count,
            vertices@.len() == i,
            forall|j: int|
                0 <= j < i ==> vertices@[j] == spec_vertex_at(
                    positions@,
                    colors@,
                    normals@,
                    uvs@,
                    default_color,
                    j,
                ),
        decreases vertex_count - i,
    {
        let position = Vec3 {
            x: positions[3 * i],
            y: positions[3 * i + 1],
            z: positions[3 * i + 2],
        };
        let color = if 3 * i + 2 < colors.len() {
            Vec3 { x: colors[3 * i], y: colors[3 * i + 1], z: colors[3 * i + 2] }
        } else {
            default_color
        };
        let normal = Vec3 { x: normals[3 * i], y: normals[3 * i + 1], z: normals[3 * i + 2] };
        let uv = Vec2 { x: uvs[2 * i], y: uvs[2 * i + 1] };
        vertices.push(Vertex { position, color, normal, uv });
        i = i + 1;
    }
    vertices
}

/// What one draw call must issue for a mesh: an indexed draw over its
/// index list, or a direct draw over its vertices.
#[derive(Debug, Clone, Copy, PartialEq, Eq, Structural)]
pub enum DrawCommand {
    Indexed { index_count: u32 },
    Direct { vertex_count: u32 },
}

/// A loaded mesh: its vertex count and, when it is indexed, its index
/// count. The vertex and index buffers themselves are device objects the
/// host program owns.
#[derive(Debug, Clone, Copy, PartialEq, Eq, Structural)]
pub struct Model {
    pub vertex_count: u32,
    pub index_count: Option<u32>,
}

impl Model {
    /// Records a mesh's counts. Fewer than three vertices cannot form a
    /// triangle and is a caller error, ruled out here.
    pub fn new(vertex_count: usize, index_count: Option<usize>) -> (r: Model)
        requires
            3 <= vertex_count <= u32::MAX,
            index_count matches Some(n) ==> n <= u32::MAX,
        ensures
            r.vertex_count == vertex_count,
            index_count is Some <==> r.index_count is Some,
            index_count matches Some(n) ==> r.index_count == Some(n as u32),
    {
        let index_count_u32 = match index_count {
            Some(n) => Some(n as u32),
            None => None,
        };
        Model { vertex_count: vertex_count as u32, index_count: index_count_u32 }
    }

    /// Whether drawing must bind an index buffer first.
    pub fn has_index_buffer(&self) -> (r: bool)
        ensures
            r <==> self.index_count is Some,
    {
        self.index_count.is_some()
    }

    /// The draw call for this mesh: indexed over its index list when it
    /// has one, else direct over its vertices.
    pub fn draw(&self) -> (r: DrawCommand)
        ensures
            self.index_count matches Some(n) ==> r == (DrawCommand::Indexed { index_count: n }),
            self.index_count is None ==> r == (DrawCommand::Direct {
                vertex_count: self.vertex_count,
            }),
    {
        match self.index_count {
            Some(n) => DrawCommand::Indexed { index_count: n },
            None => DrawCommand::Direct { vertex_count: self.vertex_count },
        }
    }
}

} // verus!
