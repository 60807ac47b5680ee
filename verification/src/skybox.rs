use vstd::prelude::*;
use crate::device::{Command, DepthTest};
use crate::model::{ModelTrait, MultiBindModel};
use crate::shader_program::ShaderProgram;

verus! {

/// The backdrop of a scene: a model that is drawn behind everything else.
pub struct Skybox {
    pub model: MultiBindModel,
}

impl Skybox {
    /// The commands of one draw: the depth test passes on equal values
    /// while the backdrop is drawn, and is strict again afterwards.
    pub open spec fn draw_commands(&self, program: u32) -> Seq<Command> {
        seq![
            Command::DepthFunc { test: DepthTest::LessOrEqual },
            Command::UseProgram { program },
        ] + self.model.draw_commands(program) + seq![Command::DepthFunc { test: DepthTest::Less }]
    }

    /// Draws the backdrop with a program.
    pub fn draw(&self, shader_program: &ShaderProgram, queue: &mut Vec<Command>)
        requires
            self.model.drawable(),
        ensures
            final(queue)@ == old(queue)@ + self.draw_commands(shader_program.handle()),
    {
        queue.push(Command::DepthFunc { test: DepthTest::LessOrEqual });
        shader_program.use_program(queue);
        self.model.draw(shader_program, queue);
        queue.push(Command::DepthFunc { test: DepthTest::Less });
    }
}

} // verus!
