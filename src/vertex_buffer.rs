use vstd::prelude::*;
use crate::buffer::{
    BufferCreationError, BufferFlags, BufferType, LinearSyncFence, RawBuffer, RawBufferView,
    context_after, created, creation_error, fences_over, fences_without, raw_wf,
};
use crate::context::{
    Api, Context, ContextView, instancing_supported, persistent_mapping_supported,
    read_back_supported,
};
use crate::vertex::{Binding, Vertex, VertexFormat, VerticesSource, bindings_fit};

verus! {

/// What a vertex buffer of any element type looks like from outside.
pub ghost struct VertexBufferAnyView {
    pub buffer: RawBufferView,
    pub bindings: Seq<Binding>,
    /// Bytes from one vertex to the next.
    pub elements_size: usize,
}

/// The buffer is sound and every attribute lies inside one vertex.
pub open spec fn any_wf(v: VertexBufferAnyView) -> bool {
    raw_wf(v.buffer) && bindings_fit(v.bindings, v.elements_size as int)
}

/// `contents` with the elements from `offset` on replaced by `data`.
pub open spec fn splice<T>(contents: Seq<T>, offset: int, data: Seq<T>) -> Seq<T> {
    contents.subrange(0, offset) + data + contents.subrange(offset + data.len(), contents.len() as int)
}

/// A list of vertices in the graphics card's memory whose element type has
/// been forgotten. It keeps its storage handle, its layout and its fences, and
/// cannot be read or written.
pub struct VertexBufferAny {
    buffer: RawBuffer,
    bindings: VertexFormat,
    elements_size: usize,
}

impl View for VertexBufferAny {
    type V = VertexBufferAnyView;

    closed spec fn view(&self) -> VertexBufferAnyView {
        VertexBufferAnyView {
            buffer: self.buffer@,
            bindings: self.bindings@,
            elements_size: self.elements_size,
        }
    }
}

/// A list of vertices of type `T` in the graphics card's memory. Its
/// elements are kept as `T` sees them; storage, layout and fences are those
/// of the `VertexBufferAny` it becomes when the type is forgotten.
pub struct VertexBuffer<T> {
    buffer: VertexBufferAny,
    contents: Vec<T>,
}

/// A range of the elements of a `VertexBuffer`, borrowing it exclusively.
/// `VertexBuffer::slice` makes only ranges that lie inside the buffer, and
/// the slice's operations ask for that.
pub struct VertexBufferSlice<'b, T> {
    pub buffer: &'b mut VertexBuffer<T>,
    pub offset: usize,
    pub length: usize,
}

/// A range of the elements of a `VertexBufferAny`.
pub struct VertexBufferAnySlice<'b> {
    buffer: &'b VertexBufferAny,
    offset: usize,
    length: usize,
}

/// A marker telling a draw call to advance through a buffer once per
/// instance instead of once per vertex.
pub struct PerInstance<'b>(pub VertexBufferAnySlice<'b>);

/// Exclusive access to the elements of a buffer; the buffer takes the new
/// values when the mapping goes out of scope.
pub struct Mapping<'a, T>(pub &'a mut [T]);

/// The outcome of a creation of a vertex buffer from `data`, with elements
/// of `elements_size` bytes, on context `ctx`.
pub open spec fn creation_result<T>(
    r: Result<VertexBuffer<T>, BufferCreationError>,
    ctx: ContextView,
    data: Seq<T>,
    elements_size: int,
    persistent: bool,
    dynamic: bool,
) -> bool {
    match creation_error(ctx, elements_size, data.len() as int, persistent) {
        Some(e) => r == Err::<VertexBuffer<T>, BufferCreationError>(e),
        None => match r {
            Ok(b) => {
                &&& b.wf()
                &&& b.contents() == data
                &&& b.meta().elements_size == elements_size
                &&& created(
                    b.meta().buffer,
                    ctx,
                    BufferType::ArrayBuffer,
                    elements_size,
                    data.len() as int,
                    persistent,
                    dynamic,
                )
            },
            Err(_) => false,
        },
    }
}

/// `after` is `before` with its contents replaced by `data`.
pub open spec fn written<T>(before: VertexBuffer<T>, after: VertexBuffer<T>, data: Seq<T>) -> bool {
    after.meta() == before.meta() && after.contents() == data
}

/// `after` is `before` with the elements from `offset` on replaced by `data`.
pub open spec fn slice_written<T>(
    before: VertexBuffer<T>,
    after: VertexBuffer<T>,
    offset: int,
    data: Seq<T>,
) -> bool {
    after.meta() == before.meta() && after.contents() == splice(before.contents(), offset, data)
}

/// `r` is what reading the elements `[offset, offset + length)` of `b` gives.
pub open spec fn read_result<T>(b: VertexBuffer<T>, offset: int, length: int, r: Option<Vec<T>>) -> bool {
    if read_back_supported(b.meta().buffer.extensions) {
        r matches Some(v) && v@ == b.contents().subrange(offset, offset + length)
    } else {
        r is None
    }
}

/// A mapping of `before` showed `seen` and was left holding `left`, which
/// `after` now holds.
pub open spec fn mapped<T>(
    before: VertexBuffer<T>,
    seen: Seq<T>,
    left: Seq<T>,
    after: VertexBuffer<T>,
) -> bool {
    seen == before.contents() && after.contents() == left && after.meta() == before.meta()
}

impl<T> VertexBuffer<T> {
    /// Storage, layout and fences.
    pub closed spec fn meta(&self) -> VertexBufferAnyView {
        self.buffer@
    }

    /// The elements, as the element type sees them.
    pub closed spec fn contents(&self) -> Seq<T> {
        self.contents@
    }

    pub open spec fn wf(&self) -> bool {
        any_wf(self.meta()) && self.contents().len() == self.meta().buffer.elements_count
    }

    pub open spec fn spec_len(&self) -> nat {
        self.meta().buffer.elements_count as nat
    }

    /// No pending fence covers any element of `[offset, offset + length)`:
    /// mapping or reading that range need not wait.
    pub open spec fn idle_over(&self, offset: int, length: int) -> bool {
        fences_over(self.meta().buffer.fences, offset, length).len() == 0
    }
}

impl<T: Copy> VertexBuffer<T> {
    fn from_parts(
        ctx: &mut Context,
        data: Vec<T>,
        bindings: VertexFormat,
        elements_size: usize,
        flags: BufferFlags,
    ) -> (r: Result<VertexBuffer<T>, BufferCreationError>)
        requires
            bindings_fit(bindings@, elements_size as int),
        ensures
            context_after(old(ctx)@, final(ctx)@, r is Ok),
            creation_result(
                r,
                old(ctx)@,
                data@,
                elements_size as int,
                flags.persistent,
                flags.dynamic,
            ),
            r matches Ok(b) ==> b.meta().bindings == bindings@,
    {
        let len = data.len();
        match RawBuffer::empty(ctx, BufferType::ArrayBuffer, elements_size, len, flags) {
            Ok(buffer) => Ok(
                VertexBuffer {
                    buffer: VertexBufferAny { buffer, bindings, elements_size },
                    contents: data,
                },
            ),
            Err(e) => Err(e),
        }
    }

    /// Builds a vertex buffer from `data`, with a layout and element size
    /// given by the caller: `bindings` must lie inside `elements_size` bytes.
    pub fn new_raw(
        ctx: &mut Context,
        data: Vec<T>,
        bindings: VertexFormat,
        elements_size: usize,
    ) -> (r: Result<VertexBuffer<T>, BufferCreationError>)
        requires
            bindings_fit(bindings@, elements_size as int),
        ensures
            context_after(old(ctx)@, final(ctx)@, r is Ok),
            creation_result(r, old(ctx)@, data@, elements_size as int, false, false),
            r matches Ok(b) ==> b.meta().bindings == bindings@,
    {
        VertexBuffer::from_parts(ctx, data, bindings, elements_size, BufferFlags::simple())
    }
}

impl<T: Vertex> VertexBuffer<T> {
    /// Builds a vertex buffer holding `data`, laid out as `T` says, written
    /// once and drawn many times.
    pub fn new(ctx: &mut Context, data: Vec<T>) -> (r: Result<VertexBuffer<T>, BufferCreationError>)
        ensures
            context_after(old(ctx)@, final(ctx)@, r is Ok),
            creation_result(
                r,
                old(ctx)@,
                data@,
                vstd::layout::size_of::<T>() as int,
                false,
                false,
            ),
            r matches Ok(b) ==> b.meta().bindings == T::spec_bindings(),
    {
        let bindings = T::build_bindings();
        let elements_size = core::mem::size_of::<T>();
        VertexBuffer::from_parts(ctx, data, bindings, elements_size, BufferFlags::simple())
    }

    /// As `new`, for a buffer whose contents change often: the driver is
    /// told so.
    pub fn new_dynamic(ctx: &mut Context, data: Vec<T>) -> (r: Result<
        VertexBuffer<T>,
        BufferCreationError,
    >)
        ensures
            context_after(old(ctx)@, final(ctx)@, r is Ok),
            creation_result(
                r,
                old(ctx)@,
                data@,
                vstd::layout::size_of::<T>() as int,
                false,
                true,
            ),
            r matches Ok(b) ==> b.meta().bindings == T::spec_bindings(),
    {
        let bindings = T::build_bindings();
        let elements_size = core::mem::size_of::<T>();
        VertexBuffer::from_parts(ctx, data, bindings, elements_size, BufferFlags::dynamic())
    }

    /// As `new`, for a buffer mapped persistently, on a context known to
    /// support persistent mapping.
    pub fn new_persistent(ctx: &mut Context, data: Vec<T>) -> (r: Result<
        VertexBuffer<T>,
        BufferCreationError,
    >)
        requires
            persistent_mapping_supported(old(ctx)@.extensions),
        ensures
            context_after(old(ctx)@, final(ctx)@, r is Ok),
            creation_result(
                r,
                old(ctx)@,
                data@,
                vstd::layout::size_of::<T>() as int,
                true,
                false,
            ),
            r matches Ok(b) ==> b.meta().bindings == T::spec_bindings(),
    {
        let bindings = T::build_bindings();
        let elements_size = core::mem::size_of::<T>();
        VertexBuffer::from_parts(ctx, data, bindings, elements_size, BufferFlags::persistent())
    }

    /// As `new`, for a buffer mapped persistently, or `None` exactly where
    /// the context does not support persistent mapping. The context must
    /// have room for the buffer.
    pub fn new_persistent_if_supported(ctx: &mut Context, data: Vec<T>) -> (r: Option<
        VertexBuffer<T>,
    >)
        requires
            creation_error(
                old(ctx)@,
                vstd::layout::size_of::<T>() as int,
                data@.len() as int,
                false,
            ) is None,
        ensures
            context_after(old(ctx)@, final(ctx)@, r is Some),
            r is None <==> !persistent_mapping_supported(old(ctx)@.extensions),
            r matches Some(b) ==> creation_result(
                Ok::<VertexBuffer<T>, BufferCreationError>(b),
                old(ctx)@,
                data@,
                vstd::layout::size_of::<T>() as int,
                true,
                false,
            ) && b.meta().bindings == T::spec_bindings(),
    {
        let bindings = T::build_bindings();
        let elements_size = core::mem::size_of::<T>();
        match VertexBuffer::from_parts(ctx, data, bindings, elements_size, BufferFlags::persistent()) {
            Ok(b) => Some(b),
            Err(_) => None,
        }
    }
}

/// Copies the elements `[offset, offset + length)` of `v`.
fn copy_range<T: Copy>(v: &Vec<T>, offset: usize, length: usize) -> (r: Vec<T>)
    requires
        offset + length <= v@.len(),
    ensures
        r@ == v@.subrange(offset as int, offset + length),
{
    let n = v.len();
    let mut r: Vec<T> = Vec::new();
    let mut i: usize = 0;
    while i < length
        invariant
            i <= length,
            n == v@.len(),
            offset + length <= v@.len(),
            r@ == v@.subrange(offset as int, offset + i),
        decreases length - i,
    {
        r.push(v[offset + i]);
        i = i + 1;
        assert(r@ =~= v@.subrange(offset as int, offset + i));
    }
    r
}

/// Writes `data` over the elements of `v` from `offset` on.
fn write_range<T: Copy>(v: &mut Vec<T>, offset: usize, data: &Vec<T>)
    requires
        offset + data@.len() <= old(v)@.len(),
    ensures
        final(v)@ == splice(old(v)@, offset as int, data@),
{
    let ghost before = v@;
    let n = v.len();
    let mut i: usize = 0;
    while i < data.len()
        invariant
            i <= data@.len(),
            n == before.len(),
            offset + data@.len() <= n,
            v@ == splice(before, offset as int, data@.subrange(0, i as int)),
        decreases data@.len() - i,
    {
        let x = data[i];
        v.set(offset + i, x);
        i = i + 1;
        assert(v@ =~= splice(before, offset as int, data@.subrange(0, i as int)));
    }
    assert(data@.subrange(0, i as int) =~= data@);
}

impl<T: Copy> VertexBuffer<T> {
    /// The elements `[offset, offset + len)`, or `None` where they run past
    /// the end of the buffer.
    pub fn slice(&mut self, offset: usize, len: usize) -> (r: Option<VertexBufferSlice<'_, T>>)
        ensures
            r is Some <==> offset + len <= old(self).spec_len(),
            r is None ==> *final(self) == *old(self),
            r matches Some(s) ==> {
                &&& s.offset == offset
                &&& s.length == len
                &&& *s.buffer == *old(self)
                &&& *final(self) == *final(s.buffer)
            },
    {
        if offset > self.len() || len > self.len() - offset {
            return None;
        }
        Some(VertexBufferSlice { buffer: self, offset, length: len })
    }

    /// Maps the whole buffer. Its fences must all have signalled: see
    /// `fences_blocking`.
    pub fn map(&mut self) -> (r: Mapping<'_, T>)
        requires
            old(self).wf(),
            old(self).idle_over(0, old(self).spec_len() as int),
        ensures
            mapped(*old(self), r.0@, final(r.0)@, *final(self)),
            final(r.0)@.len() == r.0@.len() ==> final(self).wf(),
    {
        Mapping(self.contents.as_mut_slice())
    }

    /// The contents, where the context can read buffers back. Fences over the
    /// buffer must all have signalled.
    pub fn read_if_supported(&self) -> (r: Option<Vec<T>>)
        requires
            self.wf(),
            self.idle_over(0, self.spec_len() as int),
        ensures
            read_result(*self, 0, self.spec_len() as int, r),
    {
        if self.buffer.buffer.get_extensions().gl_read_buffer {
            let len = self.contents.len();
            Some(copy_range(&self.contents, 0, len))
        } else {
            None
        }
    }

    /// The contents; the context must be able to read buffers back.
    pub fn read(&self) -> (r: Vec<T>)
        requires
            self.wf(),
            self.idle_over(0, self.spec_len() as int),
            read_back_supported(self.meta().buffer.extensions),
        ensures
            r@ == self.contents(),
    {
        let len = self.contents.len();
        copy_range(&self.contents, 0, len)
    }

    /// Replaces the contents with `data`, which has the buffer's length.
    pub fn write(&mut self, data: Vec<T>)
        requires
            old(self).wf(),
            data@.len() == old(self).spec_len(),
        ensures
            written(*old(self), *final(self), data@),
            final(self).wf(),
    {
        self.contents = data;
    }
}

impl<'b, T: Copy> VertexBufferSlice<'b, T> {
    /// The slice lies inside its buffer, which is sound.
    pub open spec fn wf(&self) -> bool {
        self.buffer.wf() && self.offset + self.length <= self.buffer.spec_len()
    }

    /// The elements of the slice, where the context can read buffers back.
    /// Fences over the slice must all have signalled.
    pub fn read_if_supported(&self) -> (r: Option<Vec<T>>)
        requires
            self.wf(),
            self.buffer.idle_over(self.offset as int, self.length as int),
        ensures
            read_result(*old(self.buffer), self.offset as int, self.length as int, r),
    {
        if self.buffer.buffer.buffer.get_extensions().gl_read_buffer {
            Some(copy_range(&self.buffer.contents, self.offset, self.length))
        } else {
            None
        }
    }

    /// The elements of the slice; the context must be able to read buffers back.
    pub fn read(&self) -> (r: Vec<T>)
        requires
            self.wf(),
            self.buffer.idle_over(self.offset as int, self.length as int),
            read_back_supported(self.buffer.meta().buffer.extensions),
        ensures
            r@ == old(self.buffer).contents().subrange(
                self.offset as int,
                self.offset + self.length,
            ),
    {
        copy_range(&self.buffer.contents, self.offset, self.length)
    }

    /// Writes `data`, which has the slice's length, over the slice's elements.
    pub fn write(self, data: Vec<T>)
        requires
            self.wf(),
            data@.len() == self.length,
        ensures
            slice_written(*old(self.buffer), *final(self.buffer), self.offset as int, data@),
            final(self.buffer).wf(),
    {
        write_range(&mut self.buffer.contents, self.offset, &data);
    }

    /// Registers fence `id` over the slice's elements.
    pub fn add_fence(self, id: u64)
        ensures
            final(self.buffer).contents() == old(self.buffer).contents(),
            final(self.buffer).meta() == (VertexBufferAnyView {
                buffer: RawBufferView {
                    fences: old(self.buffer).meta().buffer.fences.push(
                        LinearSyncFence { id, offset: self.offset, length: self.length },
                    ),
                    ..old(self.buffer).meta().buffer
                },
                ..old(self.buffer).meta()
            }),
    {
        self.buffer.buffer.buffer.add_fence(
            LinearSyncFence { id, offset: self.offset, length: self.length },
        );
    }

    /// What a draw call over the slice's elements reads.
    pub fn into_vertices_source(self) -> (r: VerticesSource)
        ensures
            r == (VerticesSource {
                buffer_id: old(self.buffer).meta().buffer.id,
                offset: self.offset,
                length: self.length,
                per_instance: false,
            }),
    {
        VerticesSource {
            buffer_id: self.buffer.buffer.buffer.get_id(),
            offset: self.offset,
            length: self.length,
            per_instance: false,
        }
    }
}

impl<T> VertexBuffer<T> {
    /// Number of elements.
    pub fn len(&self) -> (r: usize)
        ensures
            r == self.spec_len(),
    {
        self.buffer.len()
    }

    /// Whether the buffer stays mapped for its whole life.
    pub fn is_persistent(&self) -> (r: bool)
        ensures
            r == self.meta().buffer.persistent,
    {
        self.buffer.buffer.is_persistent()
    }

    /// Whether the driver was told that the contents change often.
    pub fn is_dynamic(&self) -> (r: bool)
        ensures
            r == self.meta().buffer.dynamic,
    {
        self.buffer.buffer.is_dynamic()
    }

    /// Bytes from one element to the next.
    pub fn get_elements_size(&self) -> (r: usize)
        ensures
            r == self.meta().elements_size,
    {
        self.buffer.get_elements_size()
    }

    /// The attributes of an element.
    pub fn get_bindings(&self) -> (r: &VertexFormat)
        ensures
            r@ == self.meta().bindings,
    {
        self.buffer.get_bindings()
    }

    /// The driver's handle of the storage.
    pub fn get_id(&self) -> (r: u32)
        ensures
            r == self.meta().buffer.id,
    {
        self.buffer.get_id()
    }

    /// Forgets the element type; storage, layout and fences stay.
    pub fn into_vertex_buffer_any(self) -> (r: VertexBufferAny)
        ensures
            r@ == self.meta(),
    {
        self.buffer
    }

    /// Registers fence `id` over the whole buffer.
    pub fn add_fence(&mut self, id: u64)
        ensures
            final(self).contents() == old(self).contents(),
            final(self).meta() == (VertexBufferAnyView {
                buffer: RawBufferView {
                    fences: old(self).meta().buffer.fences.push(
                        LinearSyncFence { id, offset: 0, length: old(self).meta().buffer.elements_count },
                    ),
                    ..old(self).meta().buffer
                },
                ..old(self).meta()
            }),
    {
        self.buffer.add_fence(id);
    }

    /// Fence `id` has signalled: the GPU is done with its region.
    pub fn signal_fence(&mut self, id: u64)
        ensures
            final(self).contents() == old(self).contents(),
            final(self).meta() == (VertexBufferAnyView {
                buffer: RawBufferView {
                    fences: fences_without(old(self).meta().buffer.fences, id),
                    ..old(self).meta().buffer
                },
                ..old(self).meta()
            }),
    {
        self.buffer.signal_fence(id);
    }

    /// The pending fences that mapping or reading `[offset, offset + length)`
    /// has to wait for; where it is empty, that may go ahead at once.
    pub fn fences_blocking(&self, offset: usize, length: usize) -> (r: Vec<LinearSyncFence>)
        ensures
            r@ == fences_over(self.meta().buffer.fences, offset as int, length as int),
            r@.len() == 0 <==> self.idle_over(offset as int, length as int),
    {
        self.buffer.buffer.fences_blocking(offset, length)
    }

    /// A marker to draw one instance per element, or `None` where the
    /// context supports neither OpenGL 3.3 nor the instancing extension.
    pub fn per_instance_if_supported(&self) -> (r: Option<PerInstance<'_>>)
        ensures
            r is Some <==> instancing_supported(
                self.meta().buffer.version,
                self.meta().buffer.extensions,
            ),
            r matches Some(p) ==> p.0.spec_buffer() == self.meta() && p.0.spec_offset() == 0
                && p.0.spec_length() == self.spec_len(),
    {
        let v = self.buffer.buffer.get_version();
        let e = self.buffer.buffer.get_extensions();
        let gl33 = match v.0 {
            Api::Gl => v.1 > 3 || (v.1 == 3 && v.2 >= 3),
            Api::GlEs => false,
        };
        if !gl33 && !e.gl_arb_instanced_arrays {
            return None;
        }
        Some(
            PerInstance(
                VertexBufferAnySlice { buffer: &self.buffer, offset: 0, length: self.buffer.len() },
            ),
        )
    }

    /// As `per_instance_if_supported`, for a context known to support instancing.
    pub fn per_instance(&self) -> (r: PerInstance<'_>)
        requires
            instancing_supported(self.meta().buffer.version, self.meta().buffer.extensions),
        ensures
            r.0.spec_buffer() == self.meta() && r.0.spec_offset() == 0 && r.0.spec_length()
                == self.spec_len(),
    {
        self.per_instance_if_supported().unwrap()
    }

    /// What a draw call over the whole buffer reads.
    pub fn into_vertices_source(&self) -> (r: VerticesSource)
        ensures
            r == (VerticesSource {
                buffer_id: self.meta().buffer.id,
                offset: 0,
                length: self.meta().buffer.elements_count,
                per_instance: false,
            }),
    {
        self.buffer.into_vertices_source()
    }
}

impl VertexBufferAny {
    /// Bytes from one element to the next.
    pub fn get_elements_size(&self) -> (r: usize)
        ensures
            r == self@.elements_size,
    {
        self.elements_size
    }

    /// Number of elements.
    pub fn len(&self) -> (r: usize)
        ensures
            r == self@.buffer.elements_count,
    {
        self.buffer.get_elements_count()
    }

    /// The attributes of an element.
    pub fn get_bindings(&self) -> (r: &VertexFormat)
        ensures
            r@ == self@.bindings,
    {
        &self.bindings
    }

    /// The driver's handle of the storage.
    pub fn get_id(&self) -> (r: u32)
        ensures
            r == self@.buffer.id,
    {
        self.buffer.get_id()
    }

    /// Takes the buffer back as one of elements `T`, which is not checked:
    /// the caller vouches that `contents`, of the buffer's length, is what its
    /// storage holds when read as `T`.
    pub fn into_vertex_buffer<T>(self, contents: Vec<T>) -> (r: VertexBuffer<T>)
        requires
            contents@.len() == self@.buffer.elements_count,
        ensures
            r.meta() == self@,
            r.contents() == contents@,
    {
        VertexBuffer { buffer: self, contents }
    }

    /// The elements `[offset, offset + len)`, or `None` where they run past
    /// the end of the buffer.
    pub fn slice(&self, offset: usize, len: usize) -> (r: Option<VertexBufferAnySlice<'_>>)
        ensures
            r is Some <==> offset + len <= self@.buffer.elements_count,
            r matches Some(s) ==> s.spec_buffer() == self@ && s.spec_offset() == offset
                && s.spec_length() == len,
    {
        let n = self.len();
        if offset > n || len > n - offset {
            return None;
        }
        Some(VertexBufferAnySlice { buffer: self, offset, length: len })
    }

    /// Registers fence `id` over the whole buffer.
    pub fn add_fence(&mut self, id: u64)
        ensures
            final(self)@ == (VertexBufferAnyView {
                buffer: RawBufferView {
                    fences: old(self)@.buffer.fences.push(
                        LinearSyncFence { id, offset: 0, length: old(self)@.buffer.elements_count },
                    ),
                    ..old(self)@.buffer
                },
                ..old(self)@
            }),
    {
        let n = self.buffer.get_elements_count();
        self.buffer.add_fence(LinearSyncFence { id, offset: 0, length: n });
    }

    /// Fence `id` has signalled: the GPU is done with its region.
    pub fn signal_fence(&mut self, id: u64)
        ensures
            final(self)@ == (VertexBufferAnyView {
                buffer: RawBufferView {
                    fences: fences_without(old(self)@.buffer.fences, id),
                    ..old(self)@.buffer
                },
                ..old(self)@
            }),
    {
        self.buffer.signal_fence(id);
    }

    /// What a draw call over the whole buffer reads.
    pub fn into_vertices_source(&self) -> (r: VerticesSource)
        ensures
            r == (VerticesSource {
                buffer_id: self@.buffer.id,
                offset: 0,
                length: self@.buffer.elements_count,
                per_instance: false,
            }),
    {
        VerticesSource {
            buffer_id: self.buffer.get_id(),
            offset: 0,
            length: self.buffer.get_elements_count(),
            per_instance: false,
        }
    }
}

impl<'b> VertexBufferAnySlice<'b> {
    /// The buffer the slice is taken from.
    pub closed spec fn spec_buffer(&self) -> VertexBufferAnyView {
        self.buffer@
    }

    pub closed spec fn spec_offset(&self) -> usize {
        self.offset
    }

    pub closed spec fn spec_length(&self) -> usize {
        self.length
    }

    /// What a draw call over the slice's elements reads.
    pub fn into_vertices_source(self) -> (r: VerticesSource)
        ensures
            r == (VerticesSource {
                buffer_id: self.spec_buffer().buffer.id,
                offset: self.spec_offset(),
                length: self.spec_length(),
                per_instance: false,
            }),
    {
        VerticesSource {
            buffer_id: self.buffer.get_id(),
            offset: self.offset,
            length: self.length,
            per_instance: false,
        }
    }
}

impl<'b> PerInstance<'b> {
    /// What a draw call reads: the slice's elements, once per instance.
    pub fn into_vertices_source(self) -> (r: VerticesSource)
        ensures
            r == (VerticesSource {
                buffer_id: self.0.spec_buffer().buffer.id,
                offset: self.0.spec_offset(),
                length: self.0.spec_length(),
                per_instance: true,
            }),
    {
        let s = self.0.into_vertices_source();
        VerticesSource { per_instance: true, ..s }
    }
}

impl<'a, T> core::ops::Deref for Mapping<'a, T> {
    type Target = [T];

    /// The mapped elements.
    fn deref(&self) -> (r: &[T])
        ensures
            r@ == old(self.0)@,
    {
        self.0
    }
}

impl<'a, T> core::ops::DerefMut for Mapping<'a, T> {
    /// The mapped elements, to be changed in place.
    fn deref_mut(&mut self) -> (r: &mut [T])
        ensures
            r@ == old(self).0@,
            final(self).0@ == final(r)@,
            final(final(self).0)@ == final(old(self).0)@,
    {
        &mut *self.0
    }
}

/// Writing `data` through a slice at `offset` and reading the same slice back
/// gives `data`, where the context can read buffers back; the buffer keeps
/// its length and stays sound.
pub proof fn lemma_slice_round_trip<T>(
    before: VertexBuffer<T>,
    after: VertexBuffer<T>,
    offset: int,
    data: Seq<T>,
    r: Option<Vec<T>>,
)
    requires
        before.wf(),
        0 <= offset,
        offset + data.len() <= before.spec_len(),
        slice_written(before, after, offset, data),
        read_result(after, offset, data.len() as int, r),
        read_back_supported(before.meta().buffer.extensions),
    ensures
        r matches Some(v) && v@ == data,
        after.wf(),
        after.spec_len() == before.spec_len(),
{
    assert(splice(before.contents(), offset, data).subrange(offset, offset + data.len()) =~= data);
}

/// Writing `data`, of the buffer's length, and reading the buffer back gives
/// `data`, where the context can read buffers back.
pub proof fn lemma_write_read_round_trip<T>(
    before: VertexBuffer<T>,
    after: VertexBuffer<T>,
    data: Seq<T>,
    r: Option<Vec<T>>,
)
    requires
        before.wf(),
        data.len() == before.spec_len(),
        written(before, after, data),
        read_result(after, 0, after.spec_len() as int, r),
        read_back_supported(before.meta().buffer.extensions),
    ensures
        r matches Some(v) && v@ == data,
{
    assert(after.contents().subrange(0, after.spec_len() as int) =~= data);
}

/// Mapping a buffer twice, with nothing written in between, shows the same
/// elements both times.
pub proof fn lemma_map_twice<T>(
    b0: VertexBuffer<T>,
    seen1: Seq<T>,
    b1: VertexBuffer<T>,
    seen2: Seq<T>,
    left2: Seq<T>,
    b2: VertexBuffer<T>,
)
    requires
        mapped(b0, seen1, seen1, b1),
        mapped(b1, seen2, left2, b2),
    ensures
        seen2 == seen1,
        b1.meta() == b0.meta(),
{
}

/// Forgetting the element type of a buffer and taking it back as the same
/// type keeps its length, its layout and its element size.
pub proof fn lemma_erase_and_retype<T>(b: VertexBuffer<T>, any: VertexBufferAny, back: VertexBuffer<T>)
    requires
        any@ == b.meta(),
        back.meta() == any@,
    ensures
        back.spec_len() == b.spec_len(),
        back.meta().bindings == b.meta().bindings,
        back.meta().elements_size == b.meta().elements_size,
{
}

} // verus!
