use vstd::prelude::*;
use crate::device::{Command, FRAMEBUFFER_COMPLETE};
use crate::error::GlError;
use crate::framebuffer::{depth_commands, resize_commands, Framebuffer, PendingFramebuffer};
use crate::render_pipeline::{pass_commands, RenderPipeline};
use crate::shader_program::ShaderProgram;
use crate::texture::TextureLink;

verus! {

/// A pass that composites what earlier passes rendered: it draws a quad
/// over its whole framebuffer with a program that samples the linked inputs.
pub struct CompositeRenderPipeline {
    framebuffer: Framebuffer,
    program: ShaderProgram,
    width: i32,
    height: i32,
}

impl CompositeRenderPipeline {
    /// The framebuffer that the pass renders into.
    pub closed spec fn target(&self) -> Framebuffer {
        self.framebuffer
    }

    /// The program that the pass composites with.
    pub closed spec fn compositor(&self) -> ShaderProgram {
        self.program
    }

    /// Width and height of the viewport.
    pub closed spec fn viewport(&self) -> (i32, i32) {
        (self.width, self.height)
    }

    /// The pass around its framebuffer and its program, if the device
    /// reported the framebuffer complete.
    pub fn new(
        pending: PendingFramebuffer,
        status: u32,
        program: ShaderProgram,
        queue: &mut Vec<Command>,
    ) -> (result: Result<CompositeRenderPipeline, GlError>)
        ensures
            status == FRAMEBUFFER_COMPLETE ==> {
                &&& result matches Ok(pipeline)
                &&& pipeline.target() == pending.target()
                &&& pipeline.compositor() == program
                &&& pipeline.viewport() == pending.target().size()
                &&& final(queue)@ == old(queue)@.push(Command::BindFramebuffer { framebuffer: 0 })
            },
            status != FRAMEBUFFER_COMPLETE ==> {
                &&& result is Err
                &&& result->Err_0 == GlError::FramebufferNotComplete(pending.target().handle())
                &&& final(queue)@ == old(queue)@
            },
    {
        match pending.finish(status, queue) {
            Err(e) => Err(e),
            Ok(framebuffer) => {
                let (width, height) = framebuffer.get_size();
                Ok(CompositeRenderPipeline { framebuffer, program, width, height })
            },
        }
    }

    /// The framebuffer that the pass renders into.
    pub fn get_framebuffer(&self) -> (framebuffer: &Framebuffer)
        ensures
            *framebuffer == self.target(),
    {
        &self.framebuffer
    }

    /// The program that the pass composites with.
    pub fn get_program(&self) -> (program: &ShaderProgram)
        ensures
            *program == self.compositor(),
    {
        &self.program
    }
}

impl RenderPipeline for CompositeRenderPipeline {
    open spec fn wf(&self) -> bool {
        &&& self.target().wf()
        &&& self.viewport() == self.target().size()
    }

    open spec fn size(&self) -> (i32, i32) {
        self.viewport()
    }

    open spec fn link_surface(&self) -> Seq<TextureLink> {
        self.target().links()
    }

    open spec fn inputs(&self) -> Seq<TextureLink> {
        self.target().inputs()
    }

    open spec fn bind_commands(&self) -> Seq<Command> {
        pass_commands(self.viewport().0, self.viewport().1, self.target().handle())
    }

    open spec fn draw_commands(&self) -> Seq<Command> {
        self.target().draw_commands(self.compositor().handle())
    }

    /// The pass always hands its link surface out.
    open spec fn surface_refusal(&self) -> Option<GlError> {
        None
    }

    /// The pass takes any links as inputs.
    open spec fn input_refusal(&self, output: Seq<TextureLink>) -> Option<GlError> {
        None
    }

    open spec fn resize_commands(&self, width: i32, height: i32) -> Seq<Command> {
        resize_commands(
            self.target().attachments(),
            width,
            height,
            self.target().attachments().len() as int,
        ) + depth_commands(self.target().depth_stencil(), width, height)
    }

    fn bind(&self, queue: &mut Vec<Command>) {
        queue.push(Command::Viewport { width: self.width, height: self.height });
        self.framebuffer.bind(queue);
        queue.push(Command::ClearDepth);
    }

    fn draw(&mut self, queue: &mut Vec<Command>) -> (result: Result<(), GlError>)
        ensures
            result is Ok,
            final(self).target() == old(self).target(),
            final(self).compositor() == old(self).compositor(),
    {
        self.framebuffer.draw(&self.program, queue);
        Ok(())
    }

    fn get_height(&self) -> (size: (i32, i32)) {
        (self.width, self.height)
    }

    fn set_size(&mut self, width: i32, height: i32, queue: &mut Vec<Command>) -> (result: Result<
        (),
        GlError,
    >)
        ensures
            result is Ok,
            final(self).compositor() == old(self).compositor(),
            final(self).target().handle() == old(self).target().handle(),
            final(self).target().quad_model() == old(self).target().quad_model(),
            final(self).target().attachments().len() == old(self).target().attachments().len(),
            forall|i: int|
                0 <= i < final(self).target().attachments().len() ==> {
                    &&& (#[trigger] final(self).target().attachments()[i]).size() == (width, height)
                    &&& final(self).target().attachments()[i].handle() == old(
                        self,
                    ).target().attachments()[i].handle()
                },
            match old(self).target().depth_stencil() {
                Some(before) => final(self).target().depth_stencil() matches Some(rb) && rb.handle()
                    == before.handle() && rb.size() == (width, height),
                None => final(self).target().depth_stencil() is None,
            },
    {
        self.width = width;
        self.height = height;
        self.framebuffer.set_size(width, height, queue);
        Ok(())
    }

    fn get_link(&self) -> (result: Result<Vec<TextureLink>, GlError>)
        ensures
            result is Ok,
    {
        Ok(self.framebuffer.get_link())
    }

    fn link_to(&mut self, output: Vec<TextureLink>) -> (result: Result<(), GlError>)
        ensures
            result is Ok,
            final(self).compositor() == old(self).compositor(),
            final(self).target().handle() == old(self).target().handle(),
            final(self).target().attachments() == old(self).target().attachments(),
            final(self).target().depth_stencil() == old(self).target().depth_stencil(),
            final(self).target().same_quad(old(self).target()),
    {
        self.framebuffer.link_to(output);
        Ok(())
    }

    fn link_push(&mut self, texture: TextureLink) -> (result: Result<(), GlError>)
        ensures
            result is Ok,
            final(self).compositor() == old(self).compositor(),
            final(self).target().handle() == old(self).target().handle(),
            final(self).target().attachments() == old(self).target().attachments(),
            final(self).target().depth_stencil() == old(self).target().depth_stencil(),
            final(self).target().same_quad(old(self).target()),
    {
        self.framebuffer.link_push(texture);
        Ok(())
    }

    fn unlink(&mut self)
        ensures
            final(self).compositor() == old(self).compositor(),
            final(self).target().handle() == old(self).target().handle(),
            final(self).target().attachments() == old(self).target().attachments(),
            final(self).target().depth_stencil() == old(self).target().depth_stencil(),
            final(self).target().same_quad(old(self).target()),
    {
        self.framebuffer.unlink();
    }
}

} // verus!
