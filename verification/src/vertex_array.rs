use vstd::prelude::*;
use crate::buffer_obj::Buffer;
use crate::device::{gl_float, Command, FLOAT};

verus! {

/// Bytes in one row of four 32-bit floats.
pub const ROW_BYTES: u32 = 16;

/// Most rows that one call can declare: the offset of the last still fits the device's field.
pub const MAX_ROWS: i32 = 0x1000_0000;

/// One device vertex array and the counters that hand out its attribute
/// indices and binding slots.
pub struct VertexArray {
    id: u32,
    attrib_index: u32,
    buffer_index: u32,
    element_buffer: Option<u32>,
}

/// The commands that declare one attribute and tie it to a binding slot.
pub open spec fn attrib_commands(
    vertex_array: u32,
    attrib: u32,
    size: i32,
    offset: u32,
    kind: u32,
    binding: u32,
) -> Seq<Command> {
    seq![
        Command::EnableVertexArrayAttrib { vertex_array, attrib },
        Command::VertexArrayAttribFormat { vertex_array, attrib, size, kind, offset },
        Command::VertexArrayAttribBinding { vertex_array, attrib, binding },
    ]
}

/// The commands that declare `rows` consecutive attributes of four floats,
/// the first at index `first_attrib`, each one row further into the element.
pub open spec fn row_commands(vertex_array: u32, first_attrib: u32, binding: u32, rows: int) -> Seq<
    Command,
>
    decreases rows,
{
    if rows <= 0 {
        Seq::empty()
    } else {
        row_commands(vertex_array, first_attrib, binding, rows - 1) + attrib_commands(
            vertex_array,
            (first_attrib + rows - 1) as u32,
            4,
            ((rows - 1) * ROW_BYTES) as u32,
            FLOAT,
            binding,
        )
    }
}

impl VertexArray {
    /// The device handle.
    pub closed spec fn handle(&self) -> u32 {
        self.id
    }

    /// The index that the next declared attribute gets.
    pub closed spec fn next_attrib(&self) -> u32 {
        self.attrib_index
    }

    /// The slot that the next attached vertex buffer gets.
    pub closed spec fn next_binding(&self) -> u32 {
        self.buffer_index
    }

    /// The buffer that is the index source of the layout, if it has one.
    pub closed spec fn element_source(&self) -> Option<u32> {
        self.element_buffer
    }

    /// A layout without attributes around a handle that the device has created.
    pub fn new(id: u32) -> (vertex_array: VertexArray)
        ensures
            vertex_array.handle() == id,
            vertex_array.next_attrib() == 0,
            vertex_array.next_binding() == 0,
            vertex_array.element_source() is None,
    {
        VertexArray { id, attrib_index: 0, buffer_index: 0, element_buffer: None }
    }

    /// Attaches a buffer as the vertex source of the next binding slot. The
    /// buffer must not be attached to any layout yet.
    pub fn add_vertex_buffer<T>(&mut self, buffer: &mut Buffer<T>, queue: &mut Vec<Command>)
        requires
            old(self).next_binding() < u32::MAX,
            old(buffer).attached_to() is None,
        ensures
            final(self).handle() == old(self).handle(),
            final(self).next_attrib() == old(self).next_attrib(),
            final(self).next_binding() == old(self).next_binding() + 1,
            final(self).element_source() == old(self).element_source(),
            final(buffer).binding() == old(self).next_binding(),
            final(buffer).attached_to() == Some(old(self).handle()),
            final(buffer).stored() == old(buffer).stored(),
            final(buffer).handle() == old(buffer).handle(),
            final(buffer).elements() == old(buffer).elements(),
            final(queue)@ == old(queue)@.push(
                Command::VertexArrayVertexBuffer {
                    vertex_array: old(self).handle(),
                    binding: old(self).next_binding(),
                    buffer: old(buffer).handle(),
                },
            ),
    {
        buffer.add_vertex_to_vertex_array(self.id, self.buffer_index, queue);
        self.buffer_index += 1;
    }

    /// Makes a buffer the index source of the layout, in place of any earlier one.
    pub fn set_element_buffer<T>(&mut self, buffer: &Buffer<T>, queue: &mut Vec<Command>)
        ensures
            final(self).handle() == old(self).handle(),
            final(self).next_attrib() == old(self).next_attrib(),
            final(self).next_binding() == old(self).next_binding(),
            final(self).element_source() == Some(buffer.handle()),
            final(queue)@ == old(queue)@.push(
                Command::VertexArrayElementBuffer {
                    vertex_array: old(self).handle(),
                    buffer: buffer.handle(),
                },
            ),
    {
        queue.push(Command::VertexArrayElementBuffer { vertex_array: self.id, buffer: buffer.get_id() });
        self.element_buffer = Some(buffer.get_id());
    }

    /// Declares the next attribute: `size` components of type `type_`,
    /// `offset` bytes into an element of `buffer`, read from the slot of
    /// `buffer`, which must be attached to this layout.
    pub fn add_attrib<T>(
        &mut self,
        buffer: &Buffer<T>,
        size: i32,
        offset: u32,
        type_: u32,
        queue: &mut Vec<Command>,
    )
        requires
            old(self).next_attrib() < u32::MAX,
            buffer.attached_to() == Some(old(self).handle()),
        ensures
            final(self).handle() == old(self).handle(),
            final(self).next_attrib() == old(self).next_attrib() + 1,
            final(self).next_binding() == old(self).next_binding(),
            final(self).element_source() == old(self).element_source(),
            final(queue)@ == old(queue)@ + attrib_commands(
                old(self).handle(),
                old(self).next_attrib(),
                size,
                offset,
                type_,
                buffer.binding(),
            ),
    {
        queue.push(Command::EnableVertexArrayAttrib { vertex_array: self.id, attrib: self.attrib_index });
        queue.push(
            Command::VertexArrayAttribFormat {
                vertex_array: self.id,
                attrib: self.attrib_index,
                size,
                kind: type_,
                offset,
            },
        );
        buffer.bind_to_vao_attrib(self.id, self.attrib_index, queue);
        self.attrib_index += 1;
    }

    /// Declares an element of `rows` rows of four floats (a 4x4 matrix has
    /// four) as `rows` consecutive attributes, then lets the buffer's slot
    /// advance once per instance. The buffer must be attached to this layout.
    pub fn add_attrib_divisor<T>(&mut self, buffer: &Buffer<T>, rows: i32, queue: &mut Vec<Command>)
        requires
            rows <= MAX_ROWS,
            rows > 0 ==> old(self).next_attrib() + rows <= u32::MAX,
            buffer.attached_to() == Some(old(self).handle()),
        ensures
            final(self).handle() == old(self).handle(),
            final(self).next_binding() == old(self).next_binding(),
            final(self).element_source() == old(self).element_source(),
            final(self).next_attrib() == old(self).next_attrib() + (if rows > 0 {
                rows as int
            } else {
                0
            }),
            final(queue)@ == (old(queue)@ + row_commands(
                old(self).handle(),
                old(self).next_attrib(),
                buffer.binding(),
                rows as int,
            )).push(
                Command::VertexArrayBindingDivisor {
                    vertex_array: old(self).handle(),
                    binding: buffer.binding(),
                    divisor: 1,
                },
            ),
    {
        let float: u32 = gl_float();
        let mut i: i32 = 0;
        while i < rows
            invariant
                0 <= i,
                rows > 0 ==> i <= rows,
                rows <= 0 ==> i == 0,
                rows <= MAX_ROWS,
                rows > 0 ==> old(self).next_attrib() + rows <= u32::MAX,
                float == FLOAT,
                buffer.attached_to() == Some(old(self).handle()),
                self.handle() == old(self).handle(),
                self.next_binding() == old(self).next_binding(),
                self.element_source() == old(self).element_source(),
                self.next_attrib() == old(self).next_attrib() + i,
                queue@ == old(queue)@ + row_commands(
                    old(self).handle(),
                    old(self).next_attrib(),
                    buffer.binding(),
                    i as int,
                ),
            decreases rows - i,
        {
            self.add_attrib(buffer, 4, i as u32 * ROW_BYTES, float, queue);
            i += 1;
        }
        buffer.set_divisor(self.id, 1, queue);
    }

    /// Binds the layout.
    pub fn bind(&self, queue: &mut Vec<Command>)
        ensures
            final(queue)@ == old(queue)@.push(Command::BindVertexArray { vertex_array: self.handle() }),
    {
        queue.push(Command::BindVertexArray { vertex_array: self.id });
    }

    /// Binds the layout, draws `count` indices from the start of the index
    /// source once per instance, and unbinds.
    pub fn draw_elements(&self, count: i32, instance_count: i32, queue: &mut Vec<Command>)
        ensures
            final(queue)@ == old(queue)@ + seq![
                Command::BindVertexArray { vertex_array: self.handle() },
                Command::DrawElementsInstanced { count, byte_offset: 0, instances: instance_count },
                Command::BindVertexArray { vertex_array: 0 },
            ],
    {
        queue.push(Command::BindVertexArray { vertex_array: self.id });
        queue.push(Command::DrawElementsInstanced { count, byte_offset: 0, instances: instance_count });
        queue.push(Command::BindVertexArray { vertex_array: 0 });
    }

    /// Draws `count` indices starting `offset` bytes into the index source,
    /// once per instance. Nothing is bound or unbound: the layout is
    /// expected to be bound already.
    pub fn draw_elements_offset(
        &self,
        count: i32,
        offset: usize,
        instance_count: i32,
        queue: &mut Vec<Command>,
    )
        ensures
            final(queue)@ == old(queue)@.push(
                Command::DrawElementsInstanced { count, byte_offset: offset, instances: instance_count },
            ),
    {
        queue.push(Command::DrawElementsInstanced { count, byte_offset: offset, instances: instance_count });
    }

    /// The device handle.
    pub fn get_id(&self) -> (id: u32)
        ensures
            id == self.handle(),
    {
        self.id
    }

    /// The buffer that is the index source of the layout, if it has one.
    pub fn get_element_buffer(&self) -> (buffer: Option<u32>)
        ensures
            buffer == self.element_source(),
    {
        self.element_buffer
    }

    /// The index that the next declared attribute gets.
    pub fn get_attrib_index(&self) -> (index: u32)
        ensures
            index == self.next_attrib(),
    {
        self.attrib_index
    }

    /// The slot that the next attached vertex buffer gets.
    pub fn get_buffer_index(&self) -> (slot: u32)
        ensures
            slot == self.next_binding(),
    {
        self.buffer_index
    }
}

} // verus!
