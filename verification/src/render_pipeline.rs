use vstd::prelude::*;
use crate::device::Command;
use crate::error::GlError;
use crate::texture::TextureLink;

verus! {

/// The commands that make a framebuffer the render target of a pass: the
/// viewport of the pass, the framebuffer bound, its depth values cleared.
pub open spec fn pass_commands(width: i32, height: i32, framebuffer: u32) -> Seq<Command> {
    seq![
        Command::Viewport { width, height },
        Command::BindFramebuffer { framebuffer },
        Command::ClearDepth,
    ]
}

/// One pass of rendering that can be chained with others: what it renders
/// into can be linked into a later pass as that pass's input.
///
/// Nothing tracks the chain. The caller binds and draws the passes in an
/// order in which every producer comes before its consumers, and resizes
/// every pass when the view changes its size.
pub trait RenderPipeline {
    /// The invariant of the pass.
    spec fn wf(&self) -> bool;

    /// Width and height of the pass.
    spec fn size(&self) -> (i32, i32);

    /// The link surface: links to what the pass renders into, in order.
    spec fn link_surface(&self) -> Seq<TextureLink>;

    /// The links that the pass samples, in the order of linking.
    spec fn inputs(&self) -> Seq<TextureLink>;

    /// The commands that make the pass the render target.
    spec fn bind_commands(&self) -> Seq<Command>;

    /// The commands of one draw of the pass.
    spec fn draw_commands(&self) -> Seq<Command>;

    /// The commands that give the pass another size.
    spec fn resize_commands(&self, width: i32, height: i32) -> Seq<Command>;

    /// Why the pass hands out no link surface, if it does not: the error
    /// that `get_link` reports. A pass that always hands its surface out
    /// has none.
    spec fn surface_refusal(&self) -> Option<GlError>;

    /// Why the pass does not take these links as further inputs, if it
    /// does not: the error that `link_to` reports for them. A pass that
    /// takes any links has none.
    spec fn input_refusal(&self, output: Seq<TextureLink>) -> Option<GlError>;

    /// Makes the pass the render target, with its viewport, cleared as it needs.
    fn bind(&self, queue: &mut Vec<Command>)
        requires
            self.wf(),
        ensures
            final(queue)@ == old(queue)@ + self.bind_commands(),
    ;

    /// Draws the pass. A failed draw issues nothing.
    fn draw(&mut self, queue: &mut Vec<Command>) -> (result: Result<(), GlError>)
        requires
            old(self).wf(),
            old(self).inputs().len() <= i32::MAX,
        ensures
            final(self).wf(),
            final(self).size() == old(self).size(),
            final(self).link_surface() == old(self).link_surface(),
            final(self).inputs() == old(self).inputs(),
            result is Ok ==> final(queue)@ == old(queue)@ + old(self).draw_commands(),
            result is Err ==> final(queue)@ == old(queue)@,
    ;

    /// Width and height of the pass.
    fn get_height(&self) -> (size: (i32, i32))
        ensures
            size == self.size(),
    ;

    /// Gives the pass and everything it renders into another size. The
    /// link surface stays what it is: links handed out earlier stay good.
    fn set_size(&mut self, width: i32, height: i32, queue: &mut Vec<Command>) -> (result: Result<
        (),
        GlError,
    >)
        requires
            old(self).wf(),
        ensures
            final(self).wf(),
            final(self).link_surface() == old(self).link_surface(),
            final(self).inputs() == old(self).inputs(),
            result is Ok ==> final(self).size() == (width, height) && final(queue)@ == old(queue)@
                + old(self).resize_commands(width, height),
            result is Err ==> final(self).size() == old(self).size() && final(queue)@ == old(
                queue,
            )@,
    ;

    /// The link surface of the pass, for a later pass to sample.
    fn get_link(&self) -> (result: Result<Vec<TextureLink>, GlError>)
        requires
            self.wf(),
        ensures
            result matches Ok(links) ==> links@ == self.link_surface(),
            self.surface_refusal() is None ==> result is Ok,
            self.surface_refusal() matches Some(e) ==> result == Err::<Vec<TextureLink>, GlError>(e),
    ;

    /// Appends links to the inputs of the pass. Earlier inputs stay.
    fn link_to(&mut self, output: Vec<TextureLink>) -> (result: Result<(), GlError>)
        requires
            old(self).wf(),
        ensures
            final(self).wf(),
            final(self).size() == old(self).size(),
            final(self).link_surface() == old(self).link_surface(),
            result is Ok ==> final(self).inputs() == old(self).inputs() + output@,
            result is Err ==> final(self).inputs() == old(self).inputs(),
            old(self).input_refusal(output@) is None ==> result is Ok,
            old(self).input_refusal(output@) matches Some(e) ==> result == Err::<(), GlError>(e),
    ;

    /// Appends one link to the inputs of the pass.
    fn link_push(&mut self, texture: TextureLink) -> (result: Result<(), GlError>)
        requires
            old(self).wf(),
        ensures
            final(self).wf(),
            final(self).size() == old(self).size(),
            final(self).link_surface() == old(self).link_surface(),
            result is Ok ==> final(self).inputs() == old(self).inputs().push(texture),
            result is Err ==> final(self).inputs() == old(self).inputs(),
    ;

    /// Removes every input of the pass.
    fn unlink(&mut self)
        requires
            old(self).wf(),
        ensures
            final(self).wf(),
            final(self).size() == old(self).size(),
            final(self).link_surface() == old(self).link_surface(),
            final(self).inputs() == Seq::<TextureLink>::empty(),
    ;
}

/// What wiring a producer into a consumer comes to: nothing if it
/// succeeds, else the error of the step that refuses. The producer is asked
/// for its link surface first; the consumer is then asked to take it.
pub open spec fn link_refusal<P: RenderPipeline, C: RenderPipeline>(producer: P, consumer: C) -> Option<
    GlError,
> {
    match producer.surface_refusal() {
        Some(e) => Some(e),
        None => consumer.input_refusal(producer.link_surface()),
    }
}

/// Wires the output of one pass into another: the link surface of the
/// producer is appended to the inputs of the consumer. The producer keeps
/// rendering into what it has handed out. Where the producer hands out no
/// surface, or the consumer does not take it, the consumer stays as it is
/// and the error of that step is reported.
pub fn link<P: RenderPipeline, C: RenderPipeline>(producer: &P, consumer: &mut C) -> (result: Result<
    (),
    GlError,
>)
    requires
        producer.wf(),
        old(consumer).wf(),
    ensures
        final(consumer).wf(),
        final(consumer).size() == old(consumer).size(),
        final(consumer).link_surface() == old(consumer).link_surface(),
        match link_refusal(*producer, *old(consumer)) {
            None => {
                &&& result is Ok
                &&& final(consumer).inputs() == old(consumer).inputs() + producer.link_surface()
            },
            Some(e) => {
                &&& result == Err::<(), GlError>(e)
                &&& final(consumer).inputs() == old(consumer).inputs()
            },
        },
{
    match producer.get_link() {
        Ok(links) => consumer.link_to(links),
        Err(e) => Err(e),
    }
}

} // verus!
