use vstd::prelude::*;
use crate::device::Command;
use crate::error::GlError;

verus! {

/// What a buffer has on the device.
#[derive(Debug, Clone, Copy, PartialEq, Eq, Structural)]
pub enum Storage {
    /// Nothing has been uploaded yet.
    Unallocated,
    /// Storage of a fixed size that holds this many elements.
    Fixed(usize),
    /// Storage that every full upload allocates anew; it holds this many elements.
    Resizable(usize),
}

impl Storage {
    /// Number of elements that the device holds.
    pub open spec fn resident(self) -> nat {
        match self {
            Storage::Unallocated => 0,
            Storage::Fixed(n) => n as nat,
            Storage::Resizable(n) => n as nat,
        }
    }
}

/// One device buffer and the local copy of its elements.
///
/// The local copy is what the next upload sends; the device holds what the
/// last upload sent. Edits of the local copy alone let the two differ until
/// the next upload.
pub struct Buffer<T> {
    id: u32,
    data: Vec<T>,
    binding_index: u32,
    layout: Option<u32>,
    storage: Storage,
}

impl<T> Buffer<T> {
    /// The device handle.
    pub closed spec fn handle(&self) -> u32 {
        self.id
    }

    /// The local copy of the elements.
    pub closed spec fn elements(&self) -> Seq<T> {
        self.data@
    }

    /// The binding slot that the buffer was last attached under.
    pub closed spec fn binding(&self) -> u32 {
        self.binding_index
    }

    /// The vertex layout that the buffer is attached to as a vertex source, if any.
    pub closed spec fn attached_to(&self) -> Option<u32> {
        self.layout
    }

    /// What the buffer has on the device.
    pub closed spec fn stored(&self) -> Storage {
        self.storage
    }

    /// Whether the device holds as many elements as the local copy.
    pub open spec fn in_step(&self) -> bool {
        self.stored().resident() == self.elements().len()
    }

    /// Whether the buffer is the same device object in the same place as
    /// `before`: same handle, same slot, same layout.
    pub open spec fn same_place(&self, before: Buffer<T>) -> bool {
        &&& self.handle() == before.handle()
        &&& self.binding() == before.binding()
        &&& self.attached_to() == before.attached_to()
    }

    /// Whether `self` is what a full upload of `data` into resizable
    /// storage makes of the buffer `before`.
    pub open spec fn is_upload_of(&self, before: Buffer<T>, data: Seq<T>) -> bool {
        &&& self.elements() == data
        &&& self.stored() == Storage::Resizable(self.elements().len() as usize)
        &&& self.same_place(before)
    }

    /// Whether `self` and `result` are what overwriting the element at
    /// `index` with `data` makes of the buffer `before`: the element
    /// replaced, or an error and nothing changed.
    pub open spec fn is_update_of(
        &self,
        before: Buffer<T>,
        index: usize,
        data: T,
        result: Result<(), GlError>,
    ) -> bool {
        &&& self.same_place(before)
        &&& self.stored() == before.stored()
        &&& index < before.elements().len() ==> result is Ok && self.elements()
            == before.elements().update(index as int, data)
        &&& index >= before.elements().len() ==> result == Err::<(), GlError>(
            GlError::IndexOutOfBounds(index, before.elements().len() as usize),
        ) && self.elements() == before.elements()
    }

    /// A buffer never has more elements than can be counted.
    pub proof fn lemma_len_fits(&self)
        ensures
            self.elements().len() <= usize::MAX,
    {
        assert(self.data@.len() == self.data.len());
    }

    /// An empty buffer around a handle that the device has created.
    pub fn new(id: u32) -> (buffer: Buffer<T>)
        ensures
            buffer.handle() == id,
            buffer.elements() == Seq::<T>::empty(),
            buffer.binding() == 0,
            buffer.attached_to() is None,
            buffer.stored() == Storage::Unallocated,
    {
        Buffer { id, data: Vec::new(), binding_index: 0, layout: None, storage: Storage::Unallocated }
    }

    /// Uploads the local copy into fixed storage.
    pub fn send_data(&mut self, queue: &mut Vec<Command>)
        ensures
            final(self).elements() == old(self).elements(),
            final(self).same_place(*old(self)),
            final(self).stored() == Storage::Fixed(old(self).elements().len() as usize),
            final(self).in_step(),
            final(queue)@ == old(queue)@.push(
                Command::BufferStorage {
                    buffer: old(self).handle(),
                    count: old(self).elements().len() as usize,
                },
            ),
    {
        queue.push(Command::BufferStorage { buffer: self.id, count: self.data.len() });
        self.storage = Storage::Fixed(self.data.len());
    }

    /// Uploads the local copy into resizable storage, which is allocated anew.
    pub fn send_data_mut(&mut self, queue: &mut Vec<Command>)
        ensures
            final(self).is_upload_of(*old(self), old(self).elements()),
            final(self).in_step(),
            final(queue)@ == old(queue)@.push(
                Command::BufferData {
                    buffer: old(self).handle(),
                    count: old(self).elements().len() as usize,
                },
            ),
    {
        queue.push(Command::BufferData { buffer: self.id, count: self.data.len() });
        self.storage = Storage::Resizable(self.data.len());
    }

    /// Uploads the one element at `index`, if there is one. The device must
    /// hold as many elements as the local copy: an upload of everything
    /// comes first, and again after every edit of the local copy alone.
    pub fn send_data_index(&self, index: usize, queue: &mut Vec<Command>) -> (result: Result<
        (),
        GlError,
    >)
        requires
            self.in_step(),
        ensures
            index < self.elements().len() ==> result is Ok && final(queue)@ == old(queue)@.push(
                Command::BufferSubData { buffer: self.handle(), index },
            ),
            index >= self.elements().len() ==> result == Err::<(), GlError>(
                GlError::IndexOutOfBounds(index, self.elements().len() as usize),
            ) && final(queue)@ == old(queue)@,
    {
        if index < self.data.len() {
            queue.push(Command::BufferSubData { buffer: self.id, index });
            Ok(())
        } else {
            Err(GlError::IndexOutOfBounds(index, self.data.len()))
        }
    }

    /// Replaces the local copy and uploads it into fixed storage.
    pub fn set_data(&mut self, data: Vec<T>, queue: &mut Vec<Command>)
        ensures
            final(self).elements() == data@,
            final(self).same_place(*old(self)),
            final(self).stored() == Storage::Fixed(data@.len() as usize),
            final(self).in_step(),
            final(queue)@ == old(queue)@.push(
                Command::BufferStorage { buffer: old(self).handle(), count: data@.len() as usize },
            ),
    {
        self.data = data;
        self.send_data(queue);
    }

    /// Replaces the local copy and uploads it into resizable storage.
    pub fn set_data_mut(&mut self, data: Vec<T>, queue: &mut Vec<Command>)
        ensures
            final(self).is_upload_of(*old(self), data@),
            final(self).elements().len() == data@.len(),
            final(self).in_step(),
            final(queue)@ == old(queue)@.push(
                Command::BufferData { buffer: old(self).handle(), count: data@.len() as usize },
            ),
    {
        self.data = data;
        self.send_data_mut(queue);
    }

    /// Appends an element and uploads everything again: the storage has to grow.
    pub fn push(&mut self, data: T, queue: &mut Vec<Command>)
        ensures
            final(self).is_upload_of(*old(self), old(self).elements().push(data)),
            final(self).in_step(),
            final(queue)@ == old(queue)@.push(
                Command::BufferData {
                    buffer: old(self).handle(),
                    count: (old(self).elements().len() + 1) as usize,
                },
            ),
    {
        self.data.push(data);
        self.send_data_mut(queue);
    }

    /// Removes the element at `index` and uploads everything again, or
    /// reports an index that names no element and changes nothing.
    pub fn remove(&mut self, index: usize, queue: &mut Vec<Command>) -> (result: Result<(), GlError>)
        ensures
            result is Err ==> final(self).elements().len() == old(self).elements().len(),
            final(self).same_place(*old(self)),
            index < old(self).elements().len() ==> {
                &&& result is Ok
                &&& final(self).is_upload_of(*old(self), old(self).elements().remove(index as int))
                &&& final(self).in_step()
                &&& final(queue)@ == old(queue)@.push(
                    Command::BufferData {
                        buffer: old(self).handle(),
                        count: (old(self).elements().len() - 1) as usize,
                    },
                )
            },
            index >= old(self).elements().len() ==> {
                &&& result == Err::<(), GlError>(
                    GlError::IndexOutOfBounds(index, old(self).elements().len() as usize),
                )
                &&& final(self).elements() == old(self).elements()
                &&& final(self).stored() == old(self).stored()
                &&& final(queue)@ == old(queue)@
            },
    {
        if index >= self.data.len() {
            return Err(GlError::IndexOutOfBounds(index, self.data.len()));
        }
        self.data.remove(index);
        self.send_data_mut(queue);
        Ok(())
    }

    /// Appends an element to the local copy only. The device keeps what it has
    /// until the next upload.
    pub fn push_to_inner(&mut self, data: T)
        ensures
            final(self).elements() == old(self).elements().push(data),
            final(self).same_place(*old(self)),
            final(self).stored() == old(self).stored(),
    {
        self.data.push(data);
    }

    /// Empties the local copy only. The device keeps what it has until the
    /// next upload.
    pub fn clear_inner(&mut self)
        ensures
            final(self).elements() == Seq::<T>::empty(),
            final(self).same_place(*old(self)),
            final(self).stored() == old(self).stored(),
    {
        self.data.clear();
    }

    /// Overwrites the element at `index` and uploads that element alone, or
    /// reports an index that names no element and changes nothing. The
    /// device must hold as many elements as the local copy.
    pub fn set_data_index(&mut self, data: T, index: usize, queue: &mut Vec<Command>) -> (result:
        Result<(), GlError>)
        requires
            old(self).in_step(),
        ensures
            final(self).in_step(),
            final(self).is_update_of(*old(self), index, data, result),
            final(self).elements().len() == old(self).elements().len(),
            index < old(self).elements().len() ==> final(queue)@ == old(queue)@.push(
                Command::BufferSubData { buffer: old(self).handle(), index },
            ),
            index >= old(self).elements().len() ==> final(queue)@ == old(queue)@,
    {
        if index >= self.data.len() {
            return Err(GlError::IndexOutOfBounds(index, self.data.len()));
        }
        self.data[index] = data;
        self.send_data_index(index, queue)
    }

    /// The local copy of the elements.
    pub fn get_data(&self) -> (data: &Vec<T>)
        ensures
            data@ == self.elements(),
    {
        &self.data
    }

    /// Attaches the buffer to a vertex layout as the source of a binding slot,
    /// and remembers the slot and the layout. A buffer is attached once.
    pub fn add_vertex_to_vertex_array(
        &mut self,
        vao_id: u32,
        binding_index: u32,
        queue: &mut Vec<Command>,
    )
        requires
            old(self).attached_to() is None,
        ensures
            final(self).binding() == binding_index,
            final(self).attached_to() == Some(vao_id),
            final(self).stored() == old(self).stored(),
            final(self).handle() == old(self).handle(),
            final(self).elements() == old(self).elements(),
            final(queue)@ == old(queue)@.push(
                Command::VertexArrayVertexBuffer {
                    vertex_array: vao_id,
                    binding: binding_index,
                    buffer: old(self).handle(),
                },
            ),
    {
        queue.push(
            Command::VertexArrayVertexBuffer { vertex_array: vao_id, binding: binding_index, buffer: self.id },
        );
        self.binding_index = binding_index;
        self.layout = Some(vao_id);
    }

    /// Lets an attribute of the vertex layout that the buffer is attached to
    /// read from the buffer's slot.
    pub fn bind_to_vao_attrib(&self, vao_id: u32, attrib_index: u32, queue: &mut Vec<Command>)
        requires
            self.attached_to() == Some(vao_id),
        ensures
            final(queue)@ == old(queue)@.push(
                Command::VertexArrayAttribBinding {
                    vertex_array: vao_id,
                    attrib: attrib_index,
                    binding: self.binding(),
                },
            ),
    {
        queue.push(
            Command::VertexArrayAttribBinding {
                vertex_array: vao_id,
                attrib: attrib_index,
                binding: self.binding_index,
            },
        );
    }

    /// Sets how often the buffer's slot advances: once per `divisor`
    /// instances, or once per vertex for 0.
    pub fn set_divisor(&self, vao_id: u32, divisor: u32, queue: &mut Vec<Command>)
        requires
            self.attached_to() == Some(vao_id),
        ensures
            final(queue)@ == old(queue)@.push(
                Command::VertexArrayBindingDivisor {
                    vertex_array: vao_id,
                    binding: self.binding(),
                    divisor,
                },
            ),
    {
        queue.push(
            Command::VertexArrayBindingDivisor { vertex_array: vao_id, binding: self.binding_index, divisor },
        );
    }

    /// Number of elements in the local copy.
    pub fn len(&self) -> (n: usize)
        ensures
            n == self.elements().len(),
    {
        self.data.len()
    }

    /// The device handle.
    pub fn get_id(&self) -> (id: u32)
        ensures
            id == self.handle(),
    {
        self.id
    }

    /// Decides whether the device holds as many elements as the local copy.
    pub fn is_in_step(&self) -> (in_step: bool)
        ensures
            in_step == self.in_step(),
    {
        let resident = match self.storage {
            Storage::Unallocated => 0,
            Storage::Fixed(n) => n,
            Storage::Resizable(n) => n,
        };
        resident == self.data.len()
    }

    /// What the buffer has on the device.
    pub fn get_storage(&self) -> (storage: Storage)
        ensures
            storage == self.stored(),
    {
        self.storage
    }

    /// The vertex layout that the buffer is attached to as a vertex source, if any.
    pub fn get_layout(&self) -> (layout: Option<u32>)
        ensures
            layout == self.attached_to(),
    {
        self.layout
    }

    /// The binding slot that the buffer was last attached under.
    pub fn get_binding_index(&self) -> (slot: u32)
        ensures
            slot == self.binding(),
    {
        self.binding_index
    }
}

/// After a full upload a buffer has as many elements as were uploaded, as
/// many as the device holds, and overwriting any one of them succeeds and
/// leaves it so.
pub proof fn lemma_update_keeps_uploaded_len<T>(
    before: Buffer<T>,
    uploaded: Buffer<T>,
    updated: Buffer<T>,
    data: Seq<T>,
    index: usize,
    value: T,
    result: Result<(), GlError>,
)
    requires
        uploaded.is_upload_of(before, data),
        index < data.len(),
        updated.is_update_of(uploaded, index, value, result),
    ensures
        uploaded.elements().len() == data.len(),
        uploaded.in_step(),
        result is Ok,
        updated.elements().len() == data.len(),
        updated.elements() == data.update(index as int, value),
        updated.in_step(),
{
    uploaded.lemma_len_fits();
    updated.lemma_len_fits();
}

} // verus!
