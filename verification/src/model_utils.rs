use vstd::prelude::*;
use crate::device::Command;
use crate::mesh::Mesh;
use crate::model::{build_commands, ModelCreateTrait, ModelHandles, ModelTrait};
use crate::texture::TextureLink;
use crate::vertex::{
    zero3, Matrix4, Vector2, Vector3, Vertex, VertexOffsets, MINUS_ONE, ONE, ZERO,
};

verus! {

/// The bit pattern of the float 2.
pub const TWO: u32 = 0x4000_0000;

/// The bit pattern of the float -0.
pub const MINUS_ZERO: u32 = 0x8000_0000;

/// Number of indices of the two triangles of a quad.
pub const QUAD_INDICES: i32 = 6;

/// A corner of the flat panel that faces the viewer: its place, its
/// texture coordinate, and the tangent whose third component is `tangent_z`.
///
/// Tangent and bitangent are what the UV-delta method gives for the two
/// triangles of the panel; they point along the panel's axes.
pub open spec fn corner(x: u32, y: u32, u: u32, v: u32, tangent_z: u32) -> Vertex {
    Vertex {
        position: Vector3 { x, y, z: ZERO },
        normal: Vector3 { x: ZERO, y: ZERO, z: ONE },
        tex_coord: Vector2 { x: u, y: v },
        tangent: Vector3 { x: TWO, y: MINUS_ZERO, z: tangent_z },
        bitangent: Vector3 { x: MINUS_ZERO, y: TWO, z: MINUS_ZERO },
    }
}

/// The four corners of the panel that covers the whole view: top left,
/// bottom left, bottom right, top right.
pub open spec fn quad_vertices() -> Seq<Vertex> {
    seq![
        corner(MINUS_ONE, ONE, ZERO, ONE, ZERO),
        corner(MINUS_ONE, MINUS_ONE, ZERO, ZERO, MINUS_ZERO),
        corner(ONE, MINUS_ONE, ONE, ZERO, ZERO),
        corner(ONE, ONE, ONE, ONE, ZERO),
    ]
}

/// The two triangles of the panel, as indices into its corners.
pub open spec fn quad_indices() -> Seq<u32> {
    seq![0, 1, 2, 0, 2, 3]
}

/// Whether a mesh covers the whole quad and its plain values are zero.
pub open spec fn covers_quad(mesh: Mesh) -> bool {
    &&& mesh.offset() == 0
    &&& mesh.count() == QUAD_INDICES
    &&& mesh.diffuse == zero3()
    &&& mesh.specular == zero3()
    &&& mesh.shininess == ZERO
}

/// Whether a mesh covers the whole quad and has no texture yet.
pub open spec fn is_quad_mesh(mesh: Mesh) -> bool {
    &&& covers_quad(mesh)
    &&& mesh.texture_count() == 0
}

/// Whether a mesh covers the whole quad and has exactly the given maps,
/// each as the one texture of its category.
pub open spec fn is_mapped_quad_mesh(
    mesh: Mesh,
    diff_map: Option<TextureLink>,
    norm_map: Option<TextureLink>,
    disp_map: Option<TextureLink>,
) -> bool {
    &&& covers_quad(mesh)
    &&& mesh.diffuse_textures@ == optional(diff_map)
    &&& mesh.normal_textures@ == optional(norm_map)
    &&& mesh.displacement_textures@ == optional(disp_map)
    &&& mesh.specular_textures@.len() == 0
    &&& mesh.shininess_textures@.len() == 0
}

/// The list of what an option holds.
pub open spec fn optional(link: Option<TextureLink>) -> Seq<TextureLink> {
    match link {
        Some(l) => seq![l],
        None => Seq::empty(),
    }
}

/// One corner of the panel.
fn make_corner(x: u32, y: u32, u: u32, v: u32, tangent_z: u32) -> (vertex: Vertex)
    ensures
        vertex == corner(x, y, u, v, tangent_z),
{
    Vertex {
        position: Vector3 { x, y, z: ZERO },
        normal: Vector3 { x: ZERO, y: ZERO, z: ONE },
        tex_coord: Vector2 { x: u, y: v },
        tangent: Vector3 { x: TWO, y: MINUS_ZERO, z: tangent_z },
        bitangent: Vector3 { x: MINUS_ZERO, y: TWO, z: MINUS_ZERO },
    }
}

/// The geometry of the panel: its corners and its triangles.
pub fn quad_geometry() -> (geometry: (Vec<Vertex>, Vec<u32>))
    ensures
        geometry.0@ == quad_vertices(),
        geometry.1@ == quad_indices(),
{
    let mut vertices: Vec<Vertex> = Vec::new();
    vertices.push(make_corner(MINUS_ONE, ONE, ZERO, ONE, ZERO));
    vertices.push(make_corner(MINUS_ONE, MINUS_ONE, ZERO, ZERO, MINUS_ZERO));
    vertices.push(make_corner(ONE, MINUS_ONE, ONE, ZERO, ZERO));
    vertices.push(make_corner(ONE, ONE, ONE, ONE, ZERO));
    let mut indices: Vec<u32> = Vec::new();
    indices.push(0);
    indices.push(1);
    indices.push(2);
    indices.push(0);
    indices.push(2);
    indices.push(3);
    (vertices, indices)
}

/// A model of one mesh that covers the whole view: a flat panel of two
/// triangles, drawn once per transform.
pub fn create_quad<T: ModelTrait + ModelCreateTrait>(
    handles: ModelHandles,
    model_transforms: Vec<Matrix4>,
    offsets: VertexOffsets,
    queue: &mut Vec<Command>,
) -> (model: T)
    ensures
        model.built_from(handles, quad_vertices(), quad_indices(), model_transforms@),
        model.mesh_list().len() == 1,
        is_quad_mesh(model.mesh_list()[0]),
        final(queue)@ == old(queue)@ + build_commands(
            handles,
            offsets,
            quad_vertices().len(),
            quad_indices().len(),
            model_transforms@.len(),
        ),
{
    let (vertices, indices) = quad_geometry();
    let mut meshes: Vec<Mesh> = Vec::new();
    meshes.push(Mesh::new(0, QUAD_INDICES));
    T::new(handles, vertices, indices, model_transforms, meshes, offsets, queue)
}

/// A quad whose one mesh has the maps that are given: a diffuse map, a
/// normal map, a displacement map, each as the one texture of its category.
pub fn create_quad_from_maps<T: ModelTrait + ModelCreateTrait>(
    handles: ModelHandles,
    diff_map: Option<TextureLink>,
    norm_map: Option<TextureLink>,
    disp_map: Option<TextureLink>,
    model_transforms: Vec<Matrix4>,
    offsets: VertexOffsets,
    queue: &mut Vec<Command>,
) -> (model: T)
    ensures
        model.built_from(handles, quad_vertices(), quad_indices(), model_transforms@),
        model.mesh_list().len() == 1,
        is_mapped_quad_mesh(model.mesh_list()[0], diff_map, norm_map, disp_map),
        final(queue)@ == old(queue)@ + build_commands(
            handles,
            offsets,
            quad_vertices().len(),
            quad_indices().len(),
            model_transforms@.len(),
        ),
{
    let (vertices, indices) = quad_geometry();
    let mut mesh = Mesh::new(0, QUAD_INDICES);
    if let Some(link) = diff_map {
        mesh.diffuse_textures.push(link);
    }
    if let Some(link) = norm_map {
        mesh.normal_textures.push(link);
    }
    if let Some(link) = disp_map {
        mesh.displacement_textures.push(link);
    }
    let mut meshes: Vec<Mesh> = Vec::new();
    meshes.push(mesh);
    T::new(handles, vertices, indices, model_transforms, meshes, offsets, queue)
}

} // verus!
