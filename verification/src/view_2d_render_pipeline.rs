use vstd::prelude::*;
use crate::device::{Command, FRAMEBUFFER_COMPLETE};
use crate::error::GlError;
use crate::framebuffer::{creation_commands, depth_commands, resize_commands, Framebuffer, PendingFramebuffer};
use crate::model::{ModelCreateTrait, ModelHandles};
use crate::model_utils::{quad_indices, quad_vertices};
use crate::render_pipeline::{pass_commands, RenderPipeline};
use crate::texture::TextureLink;
use crate::vertex::{Matrix4, VertexOffsets};

verus! {

/// A pass that renders a flat view into one colour attachment with depth
/// and stencil, for a later pass to sample.
pub struct View2DRenderPipeline {
    intermediate_fb: Framebuffer,
    width: i32,
    height: i32,
}

impl View2DRenderPipeline {
    /// The framebuffer that the pass renders into.
    pub closed spec fn target(&self) -> Framebuffer {
        self.intermediate_fb
    }

    /// Width and height of the viewport.
    pub closed spec fn viewport(&self) -> (i32, i32) {
        (self.width, self.height)
    }

    /// Requests the framebuffer of a pass of the given size: one colour
    /// attachment and a depth and stencil renderbuffer.
    pub fn prepare(
        id: u32,
        width: i32,
        height: i32,
        texture: u32,
        render_buffer: u32,
        quad: ModelHandles,
        offsets: VertexOffsets,
        queue: &mut Vec<Command>,
    ) -> (pending: PendingFramebuffer)
        ensures
            pending.target().wf(),
            pending.target().handle() == id,
            pending.target().size() == (width, height),
            pending.target().attachments().len() == 1,
            pending.target().attachments()[0].handle() == texture,
            pending.target().depth_stencil() matches Some(rb) && rb.handle() == render_buffer,
            pending.target().inputs().len() == 0,
            pending.target().quad_model().built_from(
                quad,
                quad_vertices(),
                quad_indices(),
                seq![Matrix4::unit()],
            ),
            final(queue)@ == old(queue)@ + creation_commands(
                id,
                width,
                height,
                seq![texture],
                Some(render_buffer),
                quad,
                offsets,
            ),
    {
        let mut textures: Vec<u32> = Vec::new();
        textures.push(texture);
        Framebuffer::new(id, width, height, &textures, Some(render_buffer), quad, offsets, queue)
    }

    /// The pass around its framebuffer, if the device reported the
    /// framebuffer complete.
    pub fn new(pending: PendingFramebuffer, status: u32, queue: &mut Vec<Command>) -> (result: Result<
        View2DRenderPipeline,
        GlError,
    >)
        ensures
            status == FRAMEBUFFER_COMPLETE ==> {
                &&& result matches Ok(pipeline)
                &&& pipeline.target() == pending.target()
                &&& pipeline.viewport() == pending.target().size()
                &&& final(queue)@ == old(queue)@.push(Command::BindFramebuffer { framebuffer: 0 })
            },
            status != FRAMEBUFFER_COMPLETE ==> {
                &&& result is Err
                &&& result->Err_0 == GlError::FramebufferNotComplete(pending.target().handle())
                &&& final(queue)@ == old(queue)@
            },
    {
        match pending.finish(status, queue) {
            Err(e) => Err(e),
            Ok(intermediate_fb) => {
                let (width, height) = intermediate_fb.get_size();
                Ok(View2DRenderPipeline { intermediate_fb, width, height })
            },
        }
    }

    /// Width and height of the colour attachment at `index`, if there is one.
    pub fn get_attachment_size(&self, index: usize) -> (size: Option<(i32, i32)>)
        ensures
            index < self.target().attachments().len() ==> size == Some(
                self.target().attachments()[index as int].size(),
            ),
            index >= self.target().attachments().len() ==> size is None,
    {
        self.intermediate_fb.get_attachment_size(index)
    }

    /// The framebuffer that the pass renders into.
    pub fn get_framebuffer(&self) -> (framebuffer: &Framebuffer)
        ensures
            *framebuffer == self.target(),
    {
        &self.intermediate_fb
    }
}

impl RenderPipeline for View2DRenderPipeline {
    open spec fn wf(&self) -> bool {
        &&& self.target().wf()
        &&& self.viewport() == self.target().size()
    }

    open spec fn size(&self) -> (i32, i32) {
        self.viewport()
    }

    open spec fn link_surface(&self) -> Seq<TextureLink> {
        self.target().links()
    }

    open spec fn inputs(&self) -> Seq<TextureLink> {
        self.target().inputs()
    }

    open spec fn bind_commands(&self) -> Seq<Command> {
        pass_commands(self.viewport().0, self.viewport().1, self.target().handle())
    }

    open spec fn draw_commands(&self) -> Seq<Command> {
        Seq::empty()
    }

    /// The pass always hands its link surface out.
    open spec fn surface_refusal(&self) -> Option<GlError> {
        None
    }

    /// The pass takes any links as inputs.
    open spec fn input_refusal(&self, output: Seq<TextureLink>) -> Option<GlError> {
        None
    }

    open spec fn resize_commands(&self, width: i32, height: i32) -> Seq<Command> {
        resize_commands(
            self.target().attachments(),
            width,
            height,
            self.target().attachments().len() as int,
        ) + depth_commands(self.target().depth_stencil(), width, height)
    }

    fn bind(&self, queue: &mut Vec<Command>) {
        queue.push(Command::Viewport { width: self.width, height: self.height });
        self.intermediate_fb.bind(queue);
        queue.push(Command::ClearDepth);
    }

    /// Nothing is composited in this pass, so a draw issues nothing.
    fn draw(&mut self, queue: &mut Vec<Command>) -> (result: Result<(), GlError>)
        ensures
            result is Ok,
            final(self).target() == old(self).target(),
    {
        Ok(())
    }

    fn get_height(&self) -> (size: (i32, i32)) {
        (self.width, self.height)
    }

    fn set_size(&mut self, width: i32, height: i32, queue: &mut Vec<Command>) -> (result: Result<
        (),
        GlError,
    >)
        ensures
            result is Ok,
            final(self).target().handle() == old(self).target().handle(),
            final(self).target().quad_model() == old(self).target().quad_model(),
            final(self).target().attachments().len() == old(self).target().attachments().len(),
            forall|i: int|
                0 <= i < final(self).target().attachments().len() ==> {
                    &&& (#[trigger] final(self).target().attachments()[i]).size() == (width, height)
                    &&& final(self).target().attachments()[i].handle() == old(
                        self,
                    ).target().attachments()[i].handle()
                },
            match old(self).target().depth_stencil() {
                Some(before) => final(self).target().depth_stencil() matches Some(rb) && rb.handle()
                    == before.handle() && rb.size() == (width, height),
                None => final(self).target().depth_stencil() is None,
            },
    {
        self.width = width;
        self.height = height;
        self.intermediate_fb.set_size(width, height, queue);
        Ok(())
    }

    fn get_link(&self) -> (result: Result<Vec<TextureLink>, GlError>)
        ensures
            result is Ok,
    {
        Ok(self.intermediate_fb.get_link())
    }

    fn link_to(&mut self, output: Vec<TextureLink>) -> (result: Result<(), GlError>)
        ensures
            result is Ok,
            final(self).target().handle() == old(self).target().handle(),
            final(self).target().attachments() == old(self).target().attachments(),
            final(self).target().depth_stencil() == old(self).target().depth_stencil(),
            final(self).target().same_quad(old(self).target()),
    {
        self.intermediate_fb.link_to(output);
        Ok(())
    }

    fn link_push(&mut self, texture: TextureLink) -> (result: Result<(), GlError>)
        ensures
            result is Ok,
            final(self).target().handle() == old(self).target().handle(),
            final(self).target().attachments() == old(self).target().attachments(),
            final(self).target().depth_stencil() == old(self).target().depth_stencil(),
            final(self).target().same_quad(old(self).target()),
    {
        self.intermediate_fb.link_push(texture);
        Ok(())
    }

    fn unlink(&mut self)
        ensures
            final(self).target().handle() == old(self).target().handle(),
            final(self).target().attachments() == old(self).target().attachments(),
            final(self).target().depth_stencil() == old(self).target().depth_stencil(),
            final(self).target().same_quad(old(self).target()),
    {
        self.intermediate_fb.unlink();
    }
}

} // verus!
