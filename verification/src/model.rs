use vstd::prelude::*;
use crate::buffer_obj::{Buffer, Storage};
use crate::device::{gl_float, Command, FLOAT};
use crate::mesh::Mesh;
use crate::shader_program::ShaderProgram;
use crate::vertex::{Matrix4, Vertex, VertexOffsets};
use crate::vertex_array::{attrib_commands, row_commands, VertexArray};

verus! {

/// Attributes that a vertex takes up in a layout.
pub const VERTEX_ATTRIBS: u32 = 5;

/// Rows of four floats in a transform.
pub const TRANSFORM_ROWS: i32 = 4;

/// The device handles that a model is built around.
#[derive(Debug, Clone, Copy, PartialEq, Eq, Structural)]
pub struct ModelHandles {
    pub vertex_array: u32,
    pub vertex_buffer: u32,
    pub element_buffer: u32,
    pub transform_buffer: u32,
    pub command_buffer: u32,
}

/// One indirect draw, as the device reads it from a command buffer.
#[derive(Debug, Clone, Copy, PartialEq, Eq, Structural)]
pub struct DrawCommand {
    pub count: u32,
    pub instance_count: u32,
    pub first_index: u32,
    pub base_vertex: i32,
    pub base_instance: u32,
}

/// The commands that declare the five components of a vertex, in the order
/// in which a vertex holds them, as attributes from `first` on.
pub open spec fn vertex_commands(vertex_array: u32, first: u32, binding: u32, offsets: VertexOffsets) -> Seq<
    Command,
> {
    attrib_commands(vertex_array, first, 3, offsets.position, FLOAT, binding) + attrib_commands(
        vertex_array,
        (first + 1) as u32,
        3,
        offsets.normal,
        FLOAT,
        binding,
    ) + attrib_commands(vertex_array, (first + 2) as u32, 2, offsets.tex_coord, FLOAT, binding)
        + attrib_commands(vertex_array, (first + 3) as u32, 3, offsets.tangent, FLOAT, binding)
        + attrib_commands(vertex_array, (first + 4) as u32, 3, offsets.bitangent, FLOAT, binding)
}

/// The commands that give a layout its vertices and indices: the vertex
/// buffer in the next slot, the index buffer, the vertex attributes, and
/// both uploads into fixed storage.
pub open spec fn geometry_commands(
    vertex_array: u32,
    first: u32,
    binding: u32,
    vertex_buffer: u32,
    element_buffer: u32,
    offsets: VertexOffsets,
    vertices: nat,
    indices: nat,
) -> Seq<Command> {
    seq![
        Command::VertexArrayVertexBuffer { vertex_array, binding, buffer: vertex_buffer },
        Command::VertexArrayElementBuffer { vertex_array, buffer: element_buffer },
    ] + vertex_commands(vertex_array, first, binding, offsets) + seq![
        Command::BufferStorage { buffer: vertex_buffer, count: vertices as usize },
        Command::BufferStorage { buffer: element_buffer, count: indices as usize },
    ]
}

/// The commands that give a layout its per-instance transforms: the
/// transform buffer in the next slot, one attribute per row, the slot
/// advancing once per instance, and the upload into resizable storage.
pub open spec fn transform_commands(
    vertex_array: u32,
    first: u32,
    binding: u32,
    transform_buffer: u32,
    transforms: nat,
) -> Seq<Command> {
    seq![Command::VertexArrayVertexBuffer { vertex_array, binding, buffer: transform_buffer }]
        + row_commands(vertex_array, first, binding, TRANSFORM_ROWS as int) + seq![
        Command::VertexArrayBindingDivisor { vertex_array, binding, divisor: 1 },
        Command::BufferData { buffer: transform_buffer, count: transforms as usize },
    ]
}

/// The commands that draw the first `n` meshes with a program, each with
/// its own textures, from the byte at which its range of indices starts,
/// once per instance.
pub open spec fn mesh_commands(meshes: Seq<Mesh>, program: u32, instances: i32, n: int) -> Seq<Command>
    decreases n,
{
    if n <= 0 {
        Seq::empty()
    } else {
        mesh_commands(meshes, program, instances, n - 1) + meshes[n - 1].material_commands(program)
            + seq![
            Command::DrawElementsInstanced {
                count: meshes[n - 1].count(),
                byte_offset: meshes[n - 1].byte_offset() as usize,
                instances,
            },
            Command::ResetActiveTexture,
        ]
    }
}

/// Whether every mesh can be drawn.
pub open spec fn meshes_fit(meshes: Seq<Mesh>) -> bool {
    forall|i: int| 0 <= i < meshes.len() ==> (#[trigger] meshes[i]).drawable()
}

/// Decides whether every mesh can be drawn.
fn check_meshes(meshes: &Vec<Mesh>) -> (fit: bool)
    ensures
        fit == meshes_fit(meshes@),
{
    let mut i: usize = 0;
    while i < meshes.len()
        invariant
            i <= meshes@.len(),
            forall|k: int| 0 <= k < i ==> (#[trigger] meshes@[k]).drawable(),
        decreases meshes@.len() - i,
    {
        if !meshes[i].fits() {
            return false;
        }
        i += 1;
    }
    true
}

/// Attaches vertices and indices to a layout and uploads them.
fn setup_geometry(
    vertex_array: &mut VertexArray,
    vertex_buffer: &mut Buffer<Vertex>,
    element_buffer: &mut Buffer<u32>,
    vertices: Vec<Vertex>,
    indices: Vec<u32>,
    offsets: VertexOffsets,
    queue: &mut Vec<Command>,
)
    requires
        old(vertex_array).next_binding() < u32::MAX,
        old(vertex_array).next_attrib() + VERTEX_ATTRIBS <= u32::MAX,
        old(vertex_buffer).attached_to() is None,
    ensures
        final(vertex_array).element_source() == Some(old(element_buffer).handle()),
        final(vertex_buffer).stored() == Storage::Fixed(vertices@.len() as usize),
        final(element_buffer).stored() == Storage::Fixed(indices@.len() as usize),
        final(vertex_buffer).attached_to() == Some(old(vertex_array).handle()),
        final(element_buffer).attached_to() == old(element_buffer).attached_to(),
        final(vertex_array).handle() == old(vertex_array).handle(),
        final(vertex_array).next_binding() == old(vertex_array).next_binding() + 1,
        final(vertex_array).next_attrib() == old(vertex_array).next_attrib() + VERTEX_ATTRIBS,
        final(vertex_buffer).handle() == old(vertex_buffer).handle(),
        final(vertex_buffer).binding() == old(vertex_array).next_binding(),
        final(vertex_buffer).elements() == vertices@,
        final(element_buffer).handle() == old(element_buffer).handle(),
        final(element_buffer).binding() == old(element_buffer).binding(),
        final(element_buffer).elements() == indices@,
        final(queue)@ == old(queue)@ + geometry_commands(
            old(vertex_array).handle(),
            old(vertex_array).next_attrib(),
            old(vertex_array).next_binding(),
            old(vertex_buffer).handle(),
            old(element_buffer).handle(),
            offsets,
            vertices@.len(),
            indices@.len(),
        ),
{
    let float: u32 = gl_float();
    vertex_array.add_vertex_buffer(vertex_buffer, queue);
    vertex_array.set_element_buffer(element_buffer, queue);
    vertex_array.add_attrib(vertex_buffer, 3, offsets.position, float, queue);
    vertex_array.add_attrib(vertex_buffer, 3, offsets.normal, float, queue);
    vertex_array.add_attrib(vertex_buffer, 2, offsets.tex_coord, float, queue);
    vertex_array.add_attrib(vertex_buffer, 3, offsets.tangent, float, queue);
    vertex_array.add_attrib(vertex_buffer, 3, offsets.bitangent, float, queue);
    vertex_buffer.set_data(vertices, queue);
    element_buffer.set_data(indices, queue);
}

/// Attaches per-instance transforms to a layout and uploads them.
fn setup_transforms(
    vertex_array: &mut VertexArray,
    transform_buffer: &mut Buffer<Matrix4>,
    model_transforms: Vec<Matrix4>,
    queue: &mut Vec<Command>,
)
    requires
        old(vertex_array).next_binding() < u32::MAX,
        old(vertex_array).next_attrib() + TRANSFORM_ROWS <= u32::MAX,
        old(transform_buffer).attached_to() is None,
    ensures
        final(vertex_array).element_source() == old(vertex_array).element_source(),
        final(transform_buffer).stored() == Storage::Resizable(model_transforms@.len() as usize),
        final(transform_buffer).attached_to() == Some(old(vertex_array).handle()),
        final(vertex_array).handle() == old(vertex_array).handle(),
        final(vertex_array).next_binding() == old(vertex_array).next_binding() + 1,
        final(vertex_array).next_attrib() == old(vertex_array).next_attrib() + TRANSFORM_ROWS,
        final(transform_buffer).handle() == old(transform_buffer).handle(),
        final(transform_buffer).binding() == old(vertex_array).next_binding(),
        final(transform_buffer).elements() == model_transforms@,
        final(queue)@ == old(queue)@ + transform_commands(
            old(vertex_array).handle(),
            old(vertex_array).next_attrib(),
            old(vertex_array).next_binding(),
            old(transform_buffer).handle(),
            model_transforms@.len(),
        ),
{
    vertex_array.add_vertex_buffer(transform_buffer, queue);
    vertex_array.add_attrib_divisor(transform_buffer, TRANSFORM_ROWS, queue);
    transform_buffer.set_data_mut(model_transforms, queue);
}

/// Draws meshes one after another from a layout that is bound already.
fn draw_meshes(
    meshes: &Vec<Mesh>,
    vertex_array: &VertexArray,
    shader_program: &ShaderProgram,
    instances: i32,
    queue: &mut Vec<Command>,
)
    requires
        meshes_fit(meshes@),
    ensures
        final(queue)@ == old(queue)@ + mesh_commands(
            meshes@,
            shader_program.handle(),
            instances,
            meshes@.len() as int,
        ),
{
    let mut i: usize = 0;
    while i < meshes.len()
        invariant
            i <= meshes@.len(),
            meshes_fit(meshes@),
            queue@ == old(queue)@ + mesh_commands(meshes@, shader_program.handle(), instances, i as int),
        decreases meshes@.len() - i,
    {
        let mesh = &meshes[i];
        mesh.set_textures(shader_program, queue);
        vertex_array.draw_elements_offset(mesh.get_count(), mesh.get_byte_offset(), instances, queue);
        queue.push(Command::ResetActiveTexture);
        i += 1;
    }
}

/// The commands that build a model around fresh handles: its geometry in
/// slot 0, its transforms in slot 1 behind the vertex attributes.
pub open spec fn build_commands(
    handles: ModelHandles,
    offsets: VertexOffsets,
    vertices: nat,
    indices: nat,
    transforms: nat,
) -> Seq<Command> {
    geometry_commands(
        handles.vertex_array,
        0,
        0,
        handles.vertex_buffer,
        handles.element_buffer,
        offsets,
        vertices,
        indices,
    ) + transform_commands(
        handles.vertex_array,
        VERTEX_ATTRIBS,
        1,
        handles.transform_buffer,
        transforms,
    )
}

/// What can be drawn with a program.
pub trait ModelTrait {
    /// Whether the model's counts fit the device's fields.
    spec fn drawable(&self) -> bool;

    /// The commands of one draw with the program of the given handle.
    spec fn draw_commands(&self, program: u32) -> Seq<Command>;

    /// Decides whether the model can be drawn.
    fn can_draw(&self) -> (can: bool)
        ensures
            can == self.drawable(),
    ;

    /// Draws every mesh of the model, once per transform.
    fn draw(&self, shader_program: &ShaderProgram, queue: &mut Vec<Command>)
        requires
            self.drawable(),
        ensures
            final(queue)@ == old(queue)@ + self.draw_commands(shader_program.handle()),
    ;
}

/// What can be built from geometry, transforms and meshes.
pub trait ModelCreateTrait: Sized {
    /// Whether the model holds exactly this geometry and these transforms,
    /// around the given handles.
    spec fn built_from(
        &self,
        handles: ModelHandles,
        vertices: Seq<Vertex>,
        indices: Seq<u32>,
        transforms: Seq<Matrix4>,
    ) -> bool;

    /// The meshes of the model, in the order in which they are drawn.
    spec fn mesh_list(&self) -> Seq<Mesh>;

    /// Builds the model and uploads its geometry and transforms. The
    /// vertices come with their tangents and bitangents.
    fn new(
        handles: ModelHandles,
        vertices: Vec<Vertex>,
        indices: Vec<u32>,
        model_transform: Vec<Matrix4>,
        meshes: Vec<Mesh>,
        offsets: VertexOffsets,
        queue: &mut Vec<Command>,
    ) -> (model: Self)
        ensures
            model.built_from(handles, vertices@, indices@, model_transform@),
            model.mesh_list() == meshes@,
            final(queue)@ == old(queue)@ + build_commands(
                handles,
                offsets,
                vertices@.len(),
                indices@.len(),
                model_transform@.len(),
            ),
    ;
}

/// A model that binds the textures of each mesh before it draws the mesh.
pub struct MultiBindModel {
    pub meshes: Vec<Mesh>,
    pub vertex_array: VertexArray,
    pub vertex_buffer: Buffer<Vertex>,
    pub element_buffer: Buffer<u32>,
    pub transform_buffer: Buffer<Matrix4>,
}

/// A model that also binds a buffer of indirect draw commands.
pub struct BindlessModel {
    pub meshes: Vec<Mesh>,
    pub vertex_array: VertexArray,
    pub vertex_buffer: Buffer<Vertex>,
    pub element_buffer: Buffer<u32>,
    pub transform_buffer: Buffer<Matrix4>,
    pub command_buffer: Buffer<DrawCommand>,
}

/// Whether a layout and its buffers hold exactly what a model is built from.
pub open spec fn holds_model(
    vertex_array: VertexArray,
    vertex_buffer: Buffer<Vertex>,
    element_buffer: Buffer<u32>,
    transform_buffer: Buffer<Matrix4>,
    handles: ModelHandles,
    vertices: Seq<Vertex>,
    indices: Seq<u32>,
    transforms: Seq<Matrix4>,
) -> bool {
    &&& vertex_array.handle() == handles.vertex_array
    &&& vertex_array.next_attrib() == VERTEX_ATTRIBS + TRANSFORM_ROWS
    &&& vertex_array.next_binding() == 2
    &&& vertex_array.element_source() == Some(handles.element_buffer)
    &&& vertex_buffer.handle() == handles.vertex_buffer
    &&& vertex_buffer.binding() == 0
    &&& vertex_buffer.attached_to() == Some(handles.vertex_array)
    &&& vertex_buffer.stored() == Storage::Fixed(vertices.len() as usize)
    &&& element_buffer.stored() == Storage::Fixed(indices.len() as usize)
    &&& transform_buffer.attached_to() == Some(handles.vertex_array)
    &&& transform_buffer.stored() == Storage::Resizable(transforms.len() as usize)
    &&& vertex_buffer.elements() == vertices
    &&& element_buffer.handle() == handles.element_buffer
    &&& element_buffer.elements() == indices
    &&& transform_buffer.handle() == handles.transform_buffer
    &&& transform_buffer.binding() == 1
    &&& transform_buffer.elements() == transforms
}

impl MultiBindModel {
    /// Builds the model around fresh handles and uploads its geometry and
    /// transforms. The vertices come with their tangents and bitangents.
    pub fn new(
        handles: ModelHandles,
        vertices: Vec<Vertex>,
        indices: Vec<u32>,
        model_transforms: Vec<Matrix4>,
        meshes: Vec<Mesh>,
        offsets: VertexOffsets,
        queue: &mut Vec<Command>,
    ) -> (model: Self)
        ensures
            model.built_from(handles, vertices@, indices@, model_transforms@),
            model.meshes == meshes,
            final(queue)@ == old(queue)@ + build_commands(
                handles,
                offsets,
                vertices@.len(),
                indices@.len(),
                model_transforms@.len(),
            ),
    {
        let mut model = Self {
            meshes,
            vertex_array: VertexArray::new(handles.vertex_array),
            vertex_buffer: Buffer::new(handles.vertex_buffer),
            element_buffer: Buffer::new(handles.element_buffer),
            transform_buffer: Buffer::new(handles.transform_buffer),
        };
        model.setup_model(vertices, indices, offsets, queue);
        model.setup_transform_attribute(model_transforms, queue);
        model
    }

    /// Attaches vertices and indices to the layout and uploads them into fixed storage.
    pub fn setup_model(
        &mut self,
        vertices: Vec<Vertex>,
        indices: Vec<u32>,
        offsets: VertexOffsets,
        queue: &mut Vec<Command>,
    )
        requires
            old(self).vertex_array.next_binding() < u32::MAX,
            old(self).vertex_array.next_attrib() + VERTEX_ATTRIBS <= u32::MAX,
            old(self).vertex_buffer.attached_to() is None,
        ensures
            final(self).vertex_array.element_source() == Some(old(self).element_buffer.handle()),
            final(self).vertex_buffer.stored() == Storage::Fixed(vertices@.len() as usize),
            final(self).element_buffer.stored() == Storage::Fixed(indices@.len() as usize),
            final(self).vertex_buffer.attached_to() == Some(old(self).vertex_array.handle()),
            final(self).element_buffer.attached_to() == old(self).element_buffer.attached_to(),
            final(self).meshes == old(self).meshes,
            final(self).transform_buffer == old(self).transform_buffer,
            final(self).vertex_array.handle() == old(self).vertex_array.handle(),
            final(self).vertex_array.next_binding() == old(self).vertex_array.next_binding() + 1,
            final(self).vertex_array.next_attrib() == old(self).vertex_array.next_attrib()
                + VERTEX_ATTRIBS,
            final(self).vertex_buffer.handle() == old(self).vertex_buffer.handle(),
            final(self).vertex_buffer.binding() == old(self).vertex_array.next_binding(),
            final(self).vertex_buffer.elements() == vertices@,
            final(self).element_buffer.handle() == old(self).element_buffer.handle(),
            final(self).element_buffer.binding() == old(self).element_buffer.binding(),
            final(self).element_buffer.elements() == indices@,
            final(queue)@ == old(queue)@ + geometry_commands(
                old(self).vertex_array.handle(),
                old(self).vertex_array.next_attrib(),
                old(self).vertex_array.next_binding(),
                old(self).vertex_buffer.handle(),
                old(self).element_buffer.handle(),
                offsets,
                vertices@.len(),
                indices@.len(),
            ),
    {
        setup_geometry(
            &mut self.vertex_array,
            &mut self.vertex_buffer,
            &mut self.element_buffer,
            vertices,
            indices,
            offsets,
            queue,
        );
    }

    /// Attaches per-instance transforms to the layout and uploads them into resizable storage.
    pub fn setup_transform_attribute(&mut self, model_transforms: Vec<Matrix4>, queue: &mut Vec<Command>)
        requires
            old(self).vertex_array.next_binding() < u32::MAX,
            old(self).vertex_array.next_attrib() + TRANSFORM_ROWS <= u32::MAX,
            old(self).transform_buffer.attached_to() is None,
        ensures
            final(self).vertex_array.element_source() == old(self).vertex_array.element_source(),
            final(self).transform_buffer.stored() == Storage::Resizable(
                model_transforms@.len() as usize,
            ),
            final(self).transform_buffer.attached_to() == Some(old(self).vertex_array.handle()),
            final(self).meshes == old(self).meshes,
            final(self).vertex_buffer == old(self).vertex_buffer,
            final(self).element_buffer == old(self).element_buffer,
            final(self).vertex_array.handle() == old(self).vertex_array.handle(),
            final(self).vertex_array.next_binding() == old(self).vertex_array.next_binding() + 1,
            final(self).vertex_array.next_attrib() == old(self).vertex_array.next_attrib()
                + TRANSFORM_ROWS,
            final(self).transform_buffer.handle() == old(self).transform_buffer.handle(),
            final(self).transform_buffer.binding() == old(self).vertex_array.next_binding(),
            final(self).transform_buffer.elements() == model_transforms@,
            final(queue)@ == old(queue)@ + transform_commands(
                old(self).vertex_array.handle(),
                old(self).vertex_array.next_attrib(),
                old(self).vertex_array.next_binding(),
                old(self).transform_buffer.handle(),
                model_transforms@.len(),
            ),
    {
        setup_transforms(&mut self.vertex_array, &mut self.transform_buffer, model_transforms, queue);
    }
}

impl ModelCreateTrait for MultiBindModel {
    open spec fn built_from(
        &self,
        handles: ModelHandles,
        vertices: Seq<Vertex>,
        indices: Seq<u32>,
        transforms: Seq<Matrix4>,
    ) -> bool {
        holds_model(
            self.vertex_array,
            self.vertex_buffer,
            self.element_buffer,
            self.transform_buffer,
            handles,
            vertices,
            indices,
            transforms,
        )
    }

    open spec fn mesh_list(&self) -> Seq<Mesh> {
        self.meshes@
    }

    fn new(
        handles: ModelHandles,
        vertices: Vec<Vertex>,
        indices: Vec<u32>,
        model_transform: Vec<Matrix4>,
        meshes: Vec<Mesh>,
        offsets: VertexOffsets,
        queue: &mut Vec<Command>,
    ) -> (model: Self) {
        MultiBindModel::new(handles, vertices, indices, model_transform, meshes, offsets, queue)
    }
}

impl ModelTrait for MultiBindModel {
    open spec fn drawable(&self) -> bool {
        &&& meshes_fit(self.meshes@)
        &&& self.transform_buffer.elements().len() <= i32::MAX
    }

    open spec fn draw_commands(&self, program: u32) -> Seq<Command> {
        seq![Command::BindVertexArray { vertex_array: self.vertex_array.handle() }] + mesh_commands(
            self.meshes@,
            program,
            self.transform_buffer.elements().len() as i32,
            self.meshes@.len() as int,
        ) + seq![Command::BindVertexArray { vertex_array: 0 }]
    }

    fn can_draw(&self) -> (can: bool) {
        check_meshes(&self.meshes) && self.transform_buffer.len() <= 0x7fff_ffff
    }

    fn draw(&self, shader_program: &ShaderProgram, queue: &mut Vec<Command>) {
        self.vertex_array.bind(queue);
        draw_meshes(
            &self.meshes,
            &self.vertex_array,
            shader_program,
            self.transform_buffer.len() as i32,
            queue,
        );
        queue.push(Command::BindVertexArray { vertex_array: 0 });
    }
}

impl BindlessModel {
    /// Builds the model around fresh handles, with an empty command buffer,
    /// and uploads its geometry and transforms. The vertices come with their
    /// tangents and bitangents.
    pub fn new(
        handles: ModelHandles,
        vertices: Vec<Vertex>,
        indices: Vec<u32>,
        model_transforms: Vec<Matrix4>,
        meshes: Vec<Mesh>,
        offsets: VertexOffsets,
        queue: &mut Vec<Command>,
    ) -> (model: Self)
        ensures
            model.built_from(handles, vertices@, indices@, model_transforms@),
            model.meshes == meshes,
            model.command_buffer.handle() == handles.command_buffer,
            model.command_buffer.elements() == Seq::<DrawCommand>::empty(),
            final(queue)@ == old(queue)@ + build_commands(
                handles,
                offsets,
                vertices@.len(),
                indices@.len(),
                model_transforms@.len(),
            ),
    {
        let mut model = Self {
            meshes,
            vertex_array: VertexArray::new(handles.vertex_array),
            vertex_buffer: Buffer::new(handles.vertex_buffer),
            element_buffer: Buffer::new(handles.element_buffer),
            transform_buffer: Buffer::new(handles.transform_buffer),
            command_buffer: Buffer::new(handles.command_buffer),
        };
        model.setup_model(vertices, indices, offsets, queue);
        model.setup_transform_attribute(model_transforms, queue);
        model
    }

    /// Attaches vertices and indices to the layout and uploads them into fixed storage.
    pub fn setup_model(
        &mut self,
        vertices: Vec<Vertex>,
        indices: Vec<u32>,
        offsets: VertexOffsets,
        queue: &mut Vec<Command>,
    )
        requires
            old(self).vertex_array.next_binding() < u32::MAX,
            old(self).vertex_array.next_attrib() + VERTEX_ATTRIBS <= u32::MAX,
            old(self).vertex_buffer.attached_to() is None,
        ensures
            final(self).vertex_array.element_source() == Some(old(self).element_buffer.handle()),
            final(self).vertex_buffer.stored() == Storage::Fixed(vertices@.len() as usize),
            final(self).element_buffer.stored() == Storage::Fixed(indices@.len() as usize),
            final(self).vertex_buffer.attached_to() == Some(old(self).vertex_array.handle()),
            final(self).element_buffer.attached_to() == old(self).element_buffer.attached_to(),
            final(self).meshes == old(self).meshes,
            final(self).transform_buffer == old(self).transform_buffer,
            final(self).command_buffer == old(self).command_buffer,
            final(self).vertex_array.handle() == old(self).vertex_array.handle(),
            final(self).vertex_array.next_binding() == old(self).vertex_array.next_binding() + 1,
            final(self).vertex_array.next_attrib() == old(self).vertex_array.next_attrib()
                + VERTEX_ATTRIBS,
            final(self).vertex_buffer.handle() == old(self).vertex_buffer.handle(),
            final(self).vertex_buffer.binding() == old(self).vertex_array.next_binding(),
            final(self).vertex_buffer.elements() == vertices@,
            final(self).element_buffer.handle() == old(self).element_buffer.handle(),
            final(self).element_buffer.binding() == old(self).element_buffer.binding(),
            final(self).element_buffer.elements() == indices@,
            final(queue)@ == old(queue)@ + geometry_commands(
                old(self).vertex_array.handle(),
                old(self).vertex_array.next_attrib(),
                old(self).vertex_array.next_binding(),
                old(self).vertex_buffer.handle(),
                old(self).element_buffer.handle(),
                offsets,
                vertices@.len(),
                indices@.len(),
            ),
    {
        setup_geometry(
            &mut self.vertex_array,
            &mut self.vertex_buffer,
            &mut self.element_buffer,
            vertices,
            indices,
            offsets,
            queue,
        );
    }

    /// Attaches per-instance transforms to the layout and uploads them into resizable storage.
    pub fn setup_transform_attribute(&mut self, model_transforms: Vec<Matrix4>, queue: &mut Vec<Command>)
        requires
            old(self).vertex_array.next_binding() < u32::MAX,
            old(self).vertex_array.next_attrib() + TRANSFORM_ROWS <= u32::MAX,
            old(self).transform_buffer.attached_to() is None,
        ensures
            final(self).vertex_array.element_source() == old(self).vertex_array.element_source(),
            final(self).transform_buffer.stored() == Storage::Resizable(
                model_transforms@.len() as usize,
            ),
            final(self).transform_buffer.attached_to() == Some(old(self).vertex_array.handle()),
            final(self).meshes == old(self).meshes,
            final(self).command_buffer == old(self).command_buffer,
            final(self).vertex_buffer == old(self).vertex_buffer,
            final(self).element_buffer == old(self).element_buffer,
            final(self).vertex_array.handle() == old(self).vertex_array.handle(),
            final(self).vertex_array.next_binding() == old(self).vertex_array.next_binding() + 1,
            final(self).vertex_array.next_attrib() == old(self).vertex_array.next_attrib()
                + TRANSFORM_ROWS,
            final(self).transform_buffer.handle() == old(self).transform_buffer.handle(),
            final(self).transform_buffer.binding() == old(self).vertex_array.next_binding(),
            final(self).transform_buffer.elements() == model_transforms@,
            final(queue)@ == old(queue)@ + transform_commands(
                old(self).vertex_array.handle(),
                old(self).vertex_array.next_attrib(),
                old(self).vertex_array.next_binding(),
                old(self).transform_buffer.handle(),
                model_transforms@.len(),
            ),
    {
        setup_transforms(&mut self.vertex_array, &mut self.transform_buffer, model_transforms, queue);
    }
}

impl ModelCreateTrait for BindlessModel {
    open spec fn built_from(
        &self,
        handles: ModelHandles,
        vertices: Seq<Vertex>,
        indices: Seq<u32>,
        transforms: Seq<Matrix4>,
    ) -> bool {
        holds_model(
            self.vertex_array,
            self.vertex_buffer,
            self.element_buffer,
            self.transform_buffer,
            handles,
            vertices,
            indices,
            transforms,
        )
    }

    open spec fn mesh_list(&self) -> Seq<Mesh> {
        self.meshes@
    }

    fn new(
        handles: ModelHandles,
        vertices: Vec<Vertex>,
        indices: Vec<u32>,
        model_transform: Vec<Matrix4>,
        meshes: Vec<Mesh>,
        offsets: VertexOffsets,
        queue: &mut Vec<Command>,
    ) -> (model: Self) {
        BindlessModel::new(handles, vertices, indices, model_transform, meshes, offsets, queue)
    }
}

impl ModelTrait for BindlessModel {
    open spec fn drawable(&self) -> bool {
        &&& meshes_fit(self.meshes@)
        &&& self.transform_buffer.elements().len() <= i32::MAX
    }

    open spec fn draw_commands(&self, program: u32) -> Seq<Command> {
        seq![
            Command::BindVertexArray { vertex_array: self.vertex_array.handle() },
            Command::BindDrawIndirectBuffer { buffer: self.command_buffer.handle() },
        ] + mesh_commands(
            self.meshes@,
            program,
            self.transform_buffer.elements().len() as i32,
            self.meshes@.len() as int,
        ) + seq![Command::BindVertexArray { vertex_array: 0 }]
    }

    fn can_draw(&self) -> (can: bool) {
        check_meshes(&self.meshes) && self.transform_buffer.len() <= 0x7fff_ffff
    }

    fn draw(&self, shader_program: &ShaderProgram, queue: &mut Vec<Command>) {
        self.vertex_array.bind(queue);
        queue.push(Command::BindDrawIndirectBuffer { buffer: self.command_buffer.get_id() });
        draw_meshes(
            &self.meshes,
            &self.vertex_array,
            shader_program,
            self.transform_buffer.len() as i32,
            queue,
        );
        queue.push(Command::BindVertexArray { vertex_array: 0 });
    }
}

} // verus!
