use vstd::prelude::*;
use crate::device::{
    gl_color_attachment0, gl_framebuffer_complete, Command, COLOR_ATTACHMENT0, FRAMEBUFFER_COMPLETE,
    TEXTURE_2D,
};
use crate::error::GlError;
use crate::model::{build_commands, ModelCreateTrait, ModelHandles, ModelTrait, MultiBindModel};
use crate::model_utils::{create_quad, quad_indices, quad_vertices, QUAD_INDICES};
use crate::render_buffer::RenderBuffer;
use crate::shader_program::ShaderProgram;
use crate::texture::{storage_commands, target_commands, Texture, TextureLink};
use crate::vertex::{zero3, Matrix4, VertexOffsets, ZERO};

verus! {

/// One device framebuffer with its colour attachments, its optional depth
/// and stencil renderbuffer, and the quad through which its linked inputs
/// are drawn.
///
/// The framebuffer owns its attachments and is the only one to resize
/// them. What it hands out, and what is linked into other framebuffers, are
/// [`TextureLink`]s to them.
pub struct Framebuffer {
    id: u32,
    textures: Vec<Texture>,
    draw_buffers: Vec<u32>,
    quad: MultiBindModel,
    width: i32,
    height: i32,
    render_buffer: Option<RenderBuffer>,
}

/// A framebuffer whose attachments have been requested and whose
/// completeness the device has not yet confirmed.
pub struct PendingFramebuffer {
    framebuffer: Framebuffer,
}

/// The links to the first `n` of some textures, in their order.
pub open spec fn links_of(textures: Seq<Texture>, n: int) -> Seq<TextureLink>
    decreases n,
{
    if n <= 0 {
        Seq::empty()
    } else {
        links_of(textures, n - 1).push(TextureLink { id: textures[n - 1].handle() })
    }
}

/// The commands that make `n` render-target textures of the given size
/// around the handles `ids` and attach them to the bound framebuffer, at
/// the colour attachment points from number `first` on.
pub open spec fn color_commands(ids: Seq<u32>, first: int, width: i32, height: i32, n: int) -> Seq<
    Command,
>
    decreases n,
{
    if n <= 0 {
        Seq::empty()
    } else {
        color_commands(ids, first, width, height, n - 1) + target_commands(ids[n - 1], width, height)
            + seq![
            Command::FramebufferTexture2D {
                attachment: (COLOR_ATTACHMENT0 + first + n - 1) as u32,
                texture: ids[n - 1],
            },
        ]
    }
}

/// The commands that give the first `n` of some textures new storage of the given size.
pub open spec fn resize_commands(textures: Seq<Texture>, width: i32, height: i32, n: int) -> Seq<
    Command,
>
    decreases n,
{
    if n <= 0 {
        Seq::empty()
    } else {
        resize_commands(textures, width, height, n - 1) + storage_commands(
            TEXTURE_2D,
            textures[n - 1].handle(),
            width,
            height,
        )
    }
}

/// The commands that give a renderbuffer, if there is one, new storage of the given size.
pub open spec fn depth_commands(render_buffer: Option<RenderBuffer>, width: i32, height: i32) -> Seq<
    Command,
> {
    match render_buffer {
        Some(rb) => seq![
            Command::NamedRenderbufferStorage { render_buffer: rb.handle(), width, height },
        ],
        None => Seq::empty(),
    }
}

/// The commands that attach a depth and stencil renderbuffer of the given
/// size around a handle, if one is given.
pub open spec fn depth_attach_commands(render_buffer: Option<u32>, width: i32, height: i32) -> Seq<
    Command,
> {
    match render_buffer {
        Some(id) => seq![
            Command::NamedRenderbufferStorage { render_buffer: id, width, height },
            Command::FramebufferRenderbuffer { render_buffer: id },
        ],
        None => Seq::empty(),
    }
}

/// The commands that set up a framebuffer: its quad, then, with the
/// framebuffer bound, its colour attachments and its renderbuffer.
pub open spec fn creation_commands(
    id: u32,
    width: i32,
    height: i32,
    texture_ids: Seq<u32>,
    render_buffer: Option<u32>,
    quad: ModelHandles,
    offsets: VertexOffsets,
) -> Seq<Command> {
    build_commands(quad, offsets, quad_vertices().len(), quad_indices().len(), 1) + seq![
        Command::BindFramebuffer { framebuffer: id },
    ] + color_commands(texture_ids, 0, width, height, texture_ids.len() as int) + seq![
        Command::DrawBuffers { count: texture_ids.len() as usize },
    ] + depth_attach_commands(render_buffer, width, height)
}

impl PendingFramebuffer {
    /// The framebuffer that is waiting for the device's verdict.
    pub closed spec fn target(&self) -> Framebuffer {
        self.framebuffer
    }

    /// The quad of the framebuffer, whose geometry the set-up uploads.
    pub fn get_quad(&self) -> (quad: &MultiBindModel)
        ensures
            *quad == self.target().quad_model(),
    {
        self.framebuffer.get_quad()
    }

    /// The attachment point of each colour attachment.
    pub fn get_draw_buffers(&self) -> (draw_buffers: &Vec<u32>)
        ensures
            draw_buffers@ == self.target().draw_buffer_list(),
    {
        self.framebuffer.get_draw_buffers()
    }

    /// Hands the framebuffer out if the device reported it complete, and
    /// binds the default target again. An incomplete framebuffer is not
    /// handed out.
    pub fn finish(self, status: u32, queue: &mut Vec<Command>) -> (result: Result<Framebuffer, GlError>)
        ensures
            status == FRAMEBUFFER_COMPLETE ==> {
                &&& result == Ok::<Framebuffer, GlError>(self.target())
                &&& final(queue)@ == old(queue)@.push(Command::BindFramebuffer { framebuffer: 0 })
            },
            status != FRAMEBUFFER_COMPLETE ==> {
                &&& result is Err
                &&& result->Err_0 == GlError::FramebufferNotComplete(self.target().handle())
                &&& final(queue)@ == old(queue)@
            },
    {
        match self.framebuffer.check_status(status) {
            Err(e) => {
                return Err(e);
            },
            Ok(_) => {},
        }
        Framebuffer::unbind(queue);
        Ok(self.framebuffer)
    }
}

impl Framebuffer {
    /// The device handle.
    pub closed spec fn handle(&self) -> u32 {
        self.id
    }

    /// The colour attachments, in the order of their attachment points.
    pub closed spec fn attachments(&self) -> Seq<Texture> {
        self.textures@
    }

    /// The attachment point of each colour attachment.
    pub closed spec fn draw_buffer_list(&self) -> Seq<u32> {
        self.draw_buffers@
    }

    /// The depth and stencil renderbuffer, if the framebuffer has one.
    pub closed spec fn depth_stencil(&self) -> Option<RenderBuffer> {
        self.render_buffer
    }

    /// Width and height that every attachment has.
    pub closed spec fn size(&self) -> (i32, i32) {
        (self.width, self.height)
    }

    /// The quad through which the linked inputs are drawn.
    pub closed spec fn quad_model(&self) -> MultiBindModel {
        self.quad
    }

    /// The vertex layout that the quad is drawn from.
    pub open spec fn quad_layout(&self) -> u32 {
        self.quad_model().vertex_array.handle()
    }

    /// The textures that the quad samples: what has been linked in, in the order of linking.
    pub open spec fn inputs(&self) -> Seq<TextureLink> {
        self.quad_model().meshes@[0].diffuse_textures@
    }

    /// The links to all colour attachments, in their order.
    pub open spec fn links(&self) -> Seq<TextureLink> {
        links_of(self.attachments(), self.attachments().len() as int)
    }

    /// The device objects that the quad is built around.
    pub open spec fn quad_handles(&self) -> ModelHandles {
        ModelHandles {
            vertex_array: self.quad_model().vertex_array.handle(),
            vertex_buffer: self.quad_model().vertex_buffer.handle(),
            element_buffer: self.quad_model().element_buffer.handle(),
            transform_buffer: self.quad_model().transform_buffer.handle(),
            command_buffer: 0,
        }
    }

    /// Whether the quad has the layout and the buffers of `before`, untouched.
    pub open spec fn same_quad(&self, before: Framebuffer) -> bool {
        &&& self.quad_model().vertex_array == before.quad_model().vertex_array
        &&& self.quad_model().vertex_buffer == before.quad_model().vertex_buffer
        &&& self.quad_model().element_buffer == before.quad_model().element_buffer
        &&& self.quad_model().transform_buffer == before.quad_model().transform_buffer
    }

    /// Whether the quad is what it was built as: the geometry of the flat
    /// panel, drawn once where it is, in a single mesh over the whole quad
    /// that nothing but linking has given textures, with plain values of zero.
    pub open spec fn quad_wf(&self) -> bool {
        let mesh = self.quad_model().meshes@[0];
        &&& self.quad_model().built_from(
            self.quad_handles(),
            quad_vertices(),
            quad_indices(),
            seq![Matrix4::unit()],
        )
        &&& self.quad_model().meshes@.len() == 1
        &&& mesh.offset() == 0
        &&& mesh.count() == QUAD_INDICES
        &&& mesh.diffuse == zero3()
        &&& mesh.specular == zero3()
        &&& mesh.shininess == ZERO
        &&& mesh.specular_textures@.len() == 0
        &&& mesh.normal_textures@.len() == 0
        &&& mesh.displacement_textures@.len() == 0
        &&& mesh.shininess_textures@.len() == 0
    }

    /// The invariant of a framebuffer: there are as many draw buffers as
    /// attachments, attachment `i` sits at colour attachment point `i`,
    /// every attachment and the renderbuffer can be resized and has the
    /// framebuffer's size, and the quad is well formed.
    pub open spec fn wf(&self) -> bool {
        &&& self.draw_buffer_list().len() == self.attachments().len()
        &&& COLOR_ATTACHMENT0 + self.attachments().len() <= u32::MAX
        &&& forall|i: int|
            0 <= i < self.attachments().len() ==> {
                &&& (#[trigger] self.attachments()[i]).resizable()
                &&& self.attachments()[i].kind() == TEXTURE_2D
                &&& self.attachments()[i].size() == self.size()
            }
        &&& forall|i: int|
            0 <= i < self.draw_buffer_list().len() ==> #[trigger] self.draw_buffer_list()[i]
                == COLOR_ATTACHMENT0 + i
        &&& self.depth_stencil() matches Some(rb) ==> rb.size() == self.size()
        &&& self.quad_wf()
    }

    /// A framebuffer of the given size without handle and attachments,
    /// with a fresh quad that is drawn once and has no inputs.
    pub fn new_default(
        width: i32,
        height: i32,
        quad: ModelHandles,
        offsets: VertexOffsets,
        queue: &mut Vec<Command>,
    ) -> (framebuffer: Framebuffer)
        ensures
            framebuffer.wf(),
            framebuffer.handle() == 0,
            framebuffer.size() == (width, height),
            framebuffer.attachments().len() == 0,
            framebuffer.depth_stencil() is None,
            framebuffer.inputs().len() == 0,
            framebuffer.quad_model().built_from(
                quad,
                quad_vertices(),
                quad_indices(),
                seq![Matrix4::unit()],
            ),
            final(queue)@ == old(queue)@ + build_commands(
                quad,
                offsets,
                quad_vertices().len(),
                quad_indices().len(),
                1,
            ),
    {
        let mut model_transforms: Vec<Matrix4> = Vec::new();
        model_transforms.push(Matrix4::identity());
        let quad_model: MultiBindModel = create_quad(quad, model_transforms, offsets, queue);
        Framebuffer {
            id: 0,
            textures: Vec::new(),
            draw_buffers: Vec::new(),
            quad: quad_model,
            width,
            height,
            render_buffer: None,
        }
    }

    /// Makes one render-target texture of the framebuffer's size around each
    /// handle, attaches it to the next colour attachment point, and routes
    /// the fragment outputs to all attachments. The framebuffer is expected
    /// to be bound.
    pub fn gen_textures(&mut self, ids: &Vec<u32>, queue: &mut Vec<Command>)
        requires
            old(self).wf(),
            COLOR_ATTACHMENT0 + old(self).attachments().len() + ids@.len() <= u32::MAX,
        ensures
            final(self).wf(),
            final(self).handle() == old(self).handle(),
            final(self).size() == old(self).size(),
            final(self).depth_stencil() == old(self).depth_stencil(),
            final(self).quad_model() == old(self).quad_model(),
            final(self).attachments().len() == old(self).attachments().len() + ids@.len(),
            forall|i: int|
                0 <= i < old(self).attachments().len() ==> final(self).attachments()[i] == old(
                    self,
                ).attachments()[i],
            forall|i: int|
                old(self).attachments().len() <= i < final(self).attachments().len() ==> (
                #[trigger] final(self).attachments()[i]).handle() == ids@[i - old(
                    self,
                ).attachments().len()],
            final(queue)@ == (old(queue)@ + color_commands(
                ids@,
                old(self).attachments().len() as int,
                old(self).size().0,
                old(self).size().1,
                ids@.len() as int,
            )).push(
                Command::DrawBuffers { count: (old(self).attachments().len() + ids@.len()) as usize },
            ),
    {
        let first_point: u32 = gl_color_attachment0();
        let ghost first = self.textures@.len() as int;
        let mut i: usize = 0;
        while i < ids.len()
            invariant
                i <= ids@.len(),
                first == old(self).attachments().len(),
                first_point == COLOR_ATTACHMENT0,
                COLOR_ATTACHMENT0 + first + ids@.len() <= u32::MAX,
                self.wf(),
                self.handle() == old(self).handle(),
                self.size() == old(self).size(),
                self.depth_stencil() == old(self).depth_stencil(),
                self.quad_model() == old(self).quad_model(),
                self.attachments().len() == first + i,
                forall|k: int| 0 <= k < first ==> self.attachments()[k] == old(self).attachments()[k],
                forall|k: int|
                    first <= k < first + i ==> (#[trigger] self.attachments()[k]).handle() == ids@[k
                        - first],
                queue@ == old(queue)@ + color_commands(
                    ids@,
                    first,
                    old(self).size().0,
                    old(self).size().1,
                    i as int,
                ),
            decreases ids@.len() - i,
        {
            let texture = Texture::new_mut(ids[i], self.width, self.height, queue);
            let attachment: u32 = first_point + self.textures.len() as u32;
            queue.push(Command::FramebufferTexture2D { attachment, texture: ids[i] });
            self.textures.push(texture);
            self.draw_buffers.push(attachment);
            i += 1;
        }
        queue.push(Command::DrawBuffers { count: self.draw_buffers.len() });
    }

    /// Makes a depth and stencil renderbuffer of the framebuffer's size
    /// around the handle and attaches it, in place of any earlier one. The
    /// framebuffer is expected to be bound.
    pub fn attach_render_buffer(&mut self, id: u32, queue: &mut Vec<Command>)
        requires
            old(self).wf(),
        ensures
            final(self).wf(),
            final(self).handle() == old(self).handle(),
            final(self).size() == old(self).size(),
            final(self).attachments() == old(self).attachments(),
            final(self).quad_model() == old(self).quad_model(),
            final(self).depth_stencil() matches Some(rb) && rb.handle() == id,
            final(queue)@ == old(queue)@ + seq![
                Command::NamedRenderbufferStorage {
                    render_buffer: id,
                    width: old(self).size().0,
                    height: old(self).size().1,
                },
                Command::FramebufferRenderbuffer { render_buffer: id },
            ],
    {
        let render_buffer = RenderBuffer::new(id, self.width, self.height, queue);
        queue.push(Command::FramebufferRenderbuffer { render_buffer: id });
        self.render_buffer = Some(render_buffer);
    }

    /// Sets up a framebuffer of the given size around a handle: one colour
    /// attachment around each handle of `texture_ids`, and a depth and
    /// stencil renderbuffer around `render_buffer` if there is one. The
    /// result waits for the device's verdict on its completeness.
    pub fn new(
        id: u32,
        width: i32,
        height: i32,
        texture_ids: &Vec<u32>,
        render_buffer: Option<u32>,
        quad: ModelHandles,
        offsets: VertexOffsets,
        queue: &mut Vec<Command>,
    ) -> (pending: PendingFramebuffer)
        requires
            COLOR_ATTACHMENT0 + texture_ids@.len() <= u32::MAX,
        ensures
            pending.target().wf(),
            pending.target().handle() == id,
            pending.target().size() == (width, height),
            pending.target().attachments().len() == texture_ids@.len(),
            forall|i: int|
                0 <= i < texture_ids@.len() ==> (#[trigger] pending.target().attachments()[i]).handle()
                    == texture_ids@[i],
            match render_buffer {
                Some(rb_id) => pending.target().depth_stencil() matches Some(rb) && rb.handle() == rb_id,
                None => pending.target().depth_stencil() is None,
            },
            pending.target().inputs().len() == 0,
            pending.target().quad_model().built_from(
                quad,
                quad_vertices(),
                quad_indices(),
                seq![Matrix4::unit()],
            ),
            final(queue)@ == old(queue)@ + creation_commands(
                id,
                width,
                height,
                texture_ids@,
                render_buffer,
                quad,
                offsets,
            ),
    {
        let mut framebuffer = Framebuffer::new_default(width, height, quad, offsets, queue);
        framebuffer.id = id;
        framebuffer.bind(queue);
        framebuffer.gen_textures(texture_ids, queue);
        if let Some(rb_id) = render_buffer {
            framebuffer.attach_render_buffer(rb_id, queue);
        }
        PendingFramebuffer { framebuffer }
    }

    /// Judges the framebuffer by the status that the device reported for it.
    pub fn check_status(&self, status: u32) -> (result: Result<(), GlError>)
        ensures
            status == FRAMEBUFFER_COMPLETE ==> result is Ok,
            status != FRAMEBUFFER_COMPLETE ==> result == Err::<(), GlError>(
                GlError::FramebufferNotComplete(self.handle()),
            ),
    {
        if status == gl_framebuffer_complete() {
            Ok(())
        } else {
            Err(GlError::FramebufferNotComplete(self.id))
        }
    }

    /// Links to all colour attachments, in their order, for a consumer to sample.
    pub fn get_link(&self) -> (result: Vec<TextureLink>)
        ensures
            result@ == self.links(),
    {
        let mut result: Vec<TextureLink> = Vec::new();
        let mut i: usize = 0;
        while i < self.textures.len()
            invariant
                i <= self.textures@.len(),
                result@ == links_of(self.textures@, i as int),
            decreases self.textures@.len() - i,
        {
            result.push(self.textures[i].link());
            i += 1;
        }
        result
    }

    /// Appends links to the inputs that the quad samples. Earlier inputs stay.
    pub fn link_to(&mut self, output: Vec<TextureLink>)
        requires
            old(self).wf(),
        ensures
            final(self).wf(),
            final(self).inputs() == old(self).inputs() + output@,
            final(self).same_quad(*old(self)),
            final(self).handle() == old(self).handle(),
            final(self).size() == old(self).size(),
            final(self).attachments() == old(self).attachments(),
            final(self).depth_stencil() == old(self).depth_stencil(),
    {
        let mut i: usize = 0;
        while i < output.len()
            invariant
                i <= output@.len(),
                self.wf(),
                self.inputs() == old(self).inputs() + output@.subrange(0, i as int),
                self.same_quad(*old(self)),
                self.handle() == old(self).handle(),
                self.size() == old(self).size(),
                self.attachments() == old(self).attachments(),
                self.depth_stencil() == old(self).depth_stencil(),
            decreases output@.len() - i,
        {
            self.link_push(output[i]);
            i += 1;
        }
    }

    /// Appends the colour attachments of another framebuffer to the inputs
    /// that the quad samples: the other's output becomes this one's input.
    pub fn link_to_fb(&mut self, framebuffer: &Framebuffer)
        requires
            old(self).wf(),
        ensures
            final(self).wf(),
            final(self).inputs() == old(self).inputs() + framebuffer.links(),
            final(self).same_quad(*old(self)),
            final(self).handle() == old(self).handle(),
            final(self).size() == old(self).size(),
            final(self).attachments() == old(self).attachments(),
            final(self).depth_stencil() == old(self).depth_stencil(),
    {
        self.link_to(framebuffer.get_link());
    }

    /// Appends one link to the inputs that the quad samples.
    pub fn link_push(&mut self, texture: TextureLink)
        requires
            old(self).wf(),
        ensures
            final(self).wf(),
            final(self).inputs() == old(self).inputs().push(texture),
            final(self).same_quad(*old(self)),
            final(self).handle() == old(self).handle(),
            final(self).size() == old(self).size(),
            final(self).attachments() == old(self).attachments(),
            final(self).depth_stencil() == old(self).depth_stencil(),
    {
        self.quad.meshes[0].diffuse_textures.push(texture);
    }

    /// Removes every input that the quad samples.
    pub fn unlink(&mut self)
        requires
            old(self).wf(),
        ensures
            final(self).wf(),
            final(self).inputs() == Seq::<TextureLink>::empty(),
            final(self).same_quad(*old(self)),
            final(self).handle() == old(self).handle(),
            final(self).size() == old(self).size(),
            final(self).attachments() == old(self).attachments(),
            final(self).depth_stencil() == old(self).depth_stencil(),
    {
        self.quad.meshes[0].diffuse_textures.clear();
    }

    /// A link to the colour attachment at `index`, if there is one.
    pub fn get(&self, index: usize) -> (result: Option<TextureLink>)
        ensures
            index < self.attachments().len() ==> result == Some(
                TextureLink { id: self.attachments()[index as int].handle() },
            ),
            index >= self.attachments().len() ==> result is None,
    {
        if index < self.textures.len() {
            Some(self.textures[index].link())
        } else {
            None
        }
    }

    /// Number of colour attachments.
    pub fn len(&self) -> (n: usize)
        ensures
            n == self.attachments().len(),
    {
        self.textures.len()
    }

    /// Makes the framebuffer the render target.
    pub fn bind(&self, queue: &mut Vec<Command>)
        ensures
            final(queue)@ == old(queue)@.push(Command::BindFramebuffer { framebuffer: self.handle() }),
    {
        queue.push(Command::BindFramebuffer { framebuffer: self.id });
    }

    /// Makes the default target the render target.
    pub fn unbind(queue: &mut Vec<Command>)
        ensures
            final(queue)@ == old(queue)@.push(Command::BindFramebuffer { framebuffer: 0 }),
    {
        queue.push(Command::BindFramebuffer { framebuffer: 0 });
    }

    /// The commands of one draw: the framebuffer bound, the program current,
    /// the quad drawn with the linked inputs as its textures.
    pub open spec fn draw_commands(&self, program: u32) -> Seq<Command> {
        seq![
            Command::BindFramebuffer { framebuffer: self.handle() },
            Command::UseProgram { program },
        ] + self.quad_model().draw_commands(program)
    }

    /// Draws the quad into the framebuffer with a program that samples the linked inputs.
    pub fn draw(&self, shader_program: &ShaderProgram, queue: &mut Vec<Command>)
        requires
            self.wf(),
            self.inputs().len() <= i32::MAX,
        ensures
            final(queue)@ == old(queue)@ + self.draw_commands(shader_program.handle()),
    {
        self.bind(queue);
        shader_program.use_program(queue);
        self.quad.draw(shader_program, queue);
    }

    /// Width and height that every attachment has.
    pub fn get_size(&self) -> (size: (i32, i32))
        ensures
            size == self.size(),
    {
        (self.width, self.height)
    }

    /// The depth and stencil renderbuffer, if the framebuffer has one.
    pub fn get_render_buffer(&self) -> (render_buffer: &Option<RenderBuffer>)
        ensures
            *render_buffer == self.depth_stencil(),
    {
        &self.render_buffer
    }

    /// Width and height of the colour attachment at `index`, if there is one.
    pub fn get_attachment_size(&self, index: usize) -> (size: Option<(i32, i32)>)
        ensures
            index < self.attachments().len() ==> size == Some(self.attachments()[index as int].size()),
            index >= self.attachments().len() ==> size is None,
    {
        if index < self.textures.len() {
            Some(self.textures[index].get_size())
        } else {
            None
        }
    }

    /// The links that the quad samples, in the order of linking.
    pub fn get_inputs(&self) -> (inputs: &Vec<TextureLink>)
        requires
            self.wf(),
        ensures
            inputs@ == self.inputs(),
    {
        &self.quad.meshes[0].diffuse_textures
    }

    /// The quad through which the linked inputs are drawn.
    pub fn get_quad(&self) -> (quad: &MultiBindModel)
        ensures
            *quad == self.quad_model(),
    {
        &self.quad
    }

    /// Decides whether the framebuffer has few enough inputs to draw them.
    pub fn can_draw(&self) -> (can: bool)
        requires
            self.wf(),
        ensures
            can == (self.inputs().len() <= i32::MAX),
    {
        self.quad.meshes[0].diffuse_textures.len() <= 0x7fff_ffff
    }

    /// Decides whether the framebuffer has attachment points left for `count` more attachments.
    pub fn can_attach(&self, count: usize) -> (can: bool)
        ensures
            can == (COLOR_ATTACHMENT0 + self.attachments().len() + count <= u32::MAX),
    {
        let limit: u128 = 0xffff_ffff - 0x8CE0;
        self.textures.len() as u128 + count as u128 <= limit
    }

    /// The attachment point of each colour attachment.
    pub fn get_draw_buffers(&self) -> (draw_buffers: &Vec<u32>)
        ensures
            draw_buffers@ == self.draw_buffer_list(),
    {
        &self.draw_buffers
    }

    /// Gives every colour attachment and the renderbuffer new storage of the
    /// given size. The attachments stay the same device objects, so every
    /// link to them stays good; their contents are undefined afterwards.
    pub fn set_size(&mut self, width: i32, height: i32, queue: &mut Vec<Command>)
        requires
            old(self).wf(),
        ensures
            final(self).wf(),
            final(self).size() == (width, height),
            final(self).handle() == old(self).handle(),
            final(self).quad_model() == old(self).quad_model(),
            final(self).inputs() == old(self).inputs(),
            final(self).links() == old(self).links(),
            final(self).attachments().len() == old(self).attachments().len(),
            forall|i: int|
                0 <= i < final(self).attachments().len() ==> {
                    &&& (#[trigger] final(self).attachments()[i]).size() == (width, height)
                    &&& final(self).attachments()[i].handle() == old(self).attachments()[i].handle()
                },
            match old(self).depth_stencil() {
                Some(before) => final(self).depth_stencil() matches Some(rb) && rb.handle()
                    == before.handle() && rb.size() == (width, height),
                None => final(self).depth_stencil() is None,
            },
            final(queue)@ == old(queue)@ + resize_commands(
                old(self).attachments(),
                width,
                height,
                old(self).attachments().len() as int,
            ) + depth_commands(old(self).depth_stencil(), width, height),
    {
        self.width = width;
        self.height = height;
        let mut i: usize = 0;
        while i < self.textures.len()
            invariant
                i <= self.textures@.len(),
                self.textures@.len() == old(self).textures@.len(),
                self.id == old(self).id,
                self.width == width,
                self.height == height,
                self.draw_buffers == old(self).draw_buffers,
                self.quad == old(self).quad,
                self.render_buffer == old(self).render_buffer,
                forall|k: int|
                    0 <= k < self.textures@.len() ==> {
                        &&& (#[trigger] self.textures@[k]).resizable()
                        &&& self.textures@[k].kind() == TEXTURE_2D
                        &&& self.textures@[k].handle() == old(self).textures@[k].handle()
                    },
                forall|k: int| 0 <= k < i ==> (#[trigger] self.textures@[k]).size() == (width, height),
                queue@ == old(queue)@ + resize_commands(old(self).textures@, width, height, i as int),
            decreases self.textures@.len() - i,
        {
            let _ = self.textures[i].resize(width, height, queue);
            i += 1;
        }
        match &mut self.render_buffer {
            Some(rbo) => {
                rbo.resize(width, height, queue);
            },
            None => {},
        }
        proof {
            lemma_links_by_handle(
                self.textures@,
                old(self).textures@,
                self.textures@.len() as int,
            );
        }
    }
}

/// Textures with the same handles have the same links.
proof fn lemma_links_by_handle(a: Seq<Texture>, b: Seq<Texture>, n: int)
    requires
        0 <= n <= a.len(),
        a.len() == b.len(),
        forall|k: int| 0 <= k < a.len() ==> (#[trigger] a[k]).handle() == b[k].handle(),
    ensures
        links_of(a, n) == links_of(b, n),
    decreases n,
{
    if n > 0 {
        lemma_links_by_handle(a, b, n - 1);
    }
}

} // verus!
