use vstd::prelude::*;
use crate::device::Command;
use crate::error::GlError;

verus! {

/// What a driver draws every frame and resizes with the view. Scenes are
/// written by the users of the library.
pub trait Scene {
    /// Gives the scene another size.
    fn set_size(&mut self, width: i32, height: i32, queue: &mut Vec<Command>) -> Result<(), GlError>;

    /// Draws the scene.
    fn draw(&mut self, queue: &mut Vec<Command>) -> Result<(), GlError>;
}

} // verus!
