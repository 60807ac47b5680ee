use vstd::prelude::*;
use crate::device::Command;

verus! {

/// One device renderbuffer holding the depth and stencil values of a framebuffer.
pub struct RenderBuffer {
    id: u32,
    width: i32,
    height: i32,
}

impl RenderBuffer {
    /// The device handle.
    pub closed spec fn handle(&self) -> u32 {
        self.id
    }

    /// Width and height of the storage.
    pub closed spec fn size(&self) -> (i32, i32) {
        (self.width, self.height)
    }

    /// A renderbuffer with depth and stencil storage of the given size,
    /// around a handle that the device has created.
    pub fn new(id: u32, width: i32, height: i32, queue: &mut Vec<Command>) -> (render_buffer: RenderBuffer)
        ensures
            render_buffer.handle() == id,
            render_buffer.size() == (width, height),
            final(queue)@ == old(queue)@.push(
                Command::NamedRenderbufferStorage { render_buffer: id, width, height },
            ),
    {
        queue.push(Command::NamedRenderbufferStorage { render_buffer: id, width, height });
        RenderBuffer { id, width, height }
    }

    /// Allocates the storage anew at another size.
    pub fn resize(&mut self, width: i32, height: i32, queue: &mut Vec<Command>)
        ensures
            final(self).handle() == old(self).handle(),
            final(self).size() == (width, height),
            final(queue)@ == old(queue)@.push(
                Command::NamedRenderbufferStorage { render_buffer: old(self).handle(), width, height },
            ),
    {
        self.width = width;
        self.height = height;
        queue.push(Command::NamedRenderbufferStorage { render_buffer: self.id, width, height });
    }

    /// The device handle.
    pub fn get_id(&self) -> (id: u32)
        ensures
            id == self.handle(),
    {
        self.id
    }

    /// Width and height of the storage.
    pub fn get_size(&self) -> (size: (i32, i32))
        ensures
            size == self.size(),
    {
        (self.width, self.height)
    }
}

} // verus!
