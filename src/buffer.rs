use vstd::prelude::*;
use crate::context::{
    Context, ContextView, ExtensionsList, Version, persistent_mapping_supported,
};

verus! {

/// Which binding point a buffer is made for.
#[derive(Clone, Copy, Debug, PartialEq, Eq, Structural)]
pub enum BufferType {
    ArrayBuffer,
    PixelPackBuffer,
}

/// How a buffer is meant to be used, told to the driver at creation.
#[derive(Clone, Copy, Debug, PartialEq, Eq, Structural)]
pub struct BufferFlags {
    /// The buffer stays mapped for its whole life.
    pub persistent: bool,
    /// The buffer's contents change often.
    pub dynamic: bool,
}

impl BufferFlags {
    /// Written once, drawn many times.
    pub fn simple() -> (r: BufferFlags)
        ensures
            !r.persistent && !r.dynamic,
    {
        BufferFlags { persistent: false, dynamic: false }
    }

    /// Written often.
    pub fn dynamic() -> (r: BufferFlags)
        ensures
            !r.persistent && r.dynamic,
    {
        BufferFlags { persistent: false, dynamic: true }
    }

    /// Mapped persistently.
    pub fn persistent() -> (r: BufferFlags)
        ensures
            r.persistent && !r.dynamic,
    {
        BufferFlags { persistent: true, dynamic: false }
    }
}

/// Why a buffer could not be created.
#[derive(Clone, Copy, Debug, PartialEq, Eq, Structural)]
pub enum BufferCreationError {
    /// Persistent mapping was asked for and the context lacks it.
    PersistentMappingNotSupported,
    /// The byte size does not fit, or the context has no handle left.
    OutOfMemory,
}

/// A fence that the GPU signals once it is done with a region of a buffer,
/// counted in elements.
#[derive(Clone, Copy, Debug, PartialEq, Eq, Structural)]
pub struct LinearSyncFence {
    pub id: u64,
    pub offset: usize,
    pub length: usize,
}

/// The fence covers part of the region `[offset, offset + length)`.
pub open spec fn overlaps(f: LinearSyncFence, offset: int, length: int) -> bool {
    f.length > 0 && length > 0 && f.offset < offset + length && offset < f.offset + f.length
}

/// The fences of `fences` that a use of `[offset, offset + length)` must wait for,
/// in the order they were added.
pub open spec fn fences_over(
    fences: Seq<LinearSyncFence>,
    offset: int,
    length: int,
) -> Seq<LinearSyncFence> {
    fences.filter(|f: LinearSyncFence| overlaps(f, offset, length))
}

/// The fences of `fences` that are left once fence `id` has signalled.
pub open spec fn fences_without(fences: Seq<LinearSyncFence>, id: u64) -> Seq<LinearSyncFence> {
    fences.filter(|f: LinearSyncFence| f.id != id)
}

/// What a raw buffer looks like from outside.
pub ghost struct RawBufferView {
    pub id: u32,
    pub ty: BufferType,
    /// Bytes from one element to the next.
    pub elements_size: usize,
    pub elements_count: usize,
    pub persistent: bool,
    /// The contents were announced as changing often.
    pub dynamic: bool,
    /// Capabilities of the context that made the buffer.
    pub version: Version,
    pub extensions: ExtensionsList,
    /// Fences still pending, oldest first.
    pub fences: Seq<LinearSyncFence>,
}

/// A buffer object of the driver: its handle, its shape, its fences.
pub struct RawBuffer {
    id: u32,
    ty: BufferType,
    elements_size: usize,
    elements_count: usize,
    persistent: bool,
    dynamic: bool,
    version: Version,
    extensions: ExtensionsList,
    fences: Vec<LinearSyncFence>,
}

impl View for RawBuffer {
    type V = RawBufferView;

    closed spec fn view(&self) -> RawBufferView {
        RawBufferView {
            id: self.id,
            ty: self.ty,
            elements_size: self.elements_size,
            elements_count: self.elements_count,
            persistent: self.persistent,
            dynamic: self.dynamic,
            version: self.version,
            extensions: self.extensions,
            fences: self.fences@,
        }
    }
}

/// The reserved bytes fit the address space, and persistence was granted only
/// where the context supports it.
pub open spec fn raw_wf(v: RawBufferView) -> bool {
    v.elements_size * v.elements_count <= usize::MAX
        && (v.persistent ==> persistent_mapping_supported(v.extensions))
}

/// The error that creating a buffer of `elements_count` elements of
/// `elements_size` bytes on `ctx` meets, if any.
pub open spec fn creation_error(
    ctx: ContextView,
    elements_size: int,
    elements_count: int,
    persistent: bool,
) -> Option<BufferCreationError> {
    if persistent && !persistent_mapping_supported(ctx.extensions) {
        Some(BufferCreationError::PersistentMappingNotSupported)
    } else if elements_size * elements_count > usize::MAX || ctx.next_id == u32::MAX {
        Some(BufferCreationError::OutOfMemory)
    } else {
        None
    }
}

/// `b` is a fresh buffer made on `ctx` with the given shape.
pub open spec fn created(
    b: RawBufferView,
    ctx: ContextView,
    ty: BufferType,
    elements_size: int,
    elements_count: int,
    persistent: bool,
    dynamic: bool,
) -> bool {
    &&& raw_wf(b)
    &&& b.id == ctx.next_id
    &&& b.ty == ty
    &&& b.elements_size == elements_size
    &&& b.elements_count == elements_count
    &&& b.persistent == persistent
    &&& b.dynamic == dynamic
    &&& b.version == ctx.version
    &&& b.extensions == ctx.extensions
    &&& b.fences.len() == 0
}

/// A creation on `before` that succeeded or not leaves `after`: one handle
/// more was used on success, nothing changed otherwise.
pub open spec fn context_after(before: ContextView, after: ContextView, ok: bool) -> bool {
    &&& after.version == before.version
    &&& after.extensions == before.extensions
    &&& after.next_id == if ok {
        before.next_id + 1
    } else {
        before.next_id as int
    }
}

impl RawBuffer {
    /// Reserves room for `elements_count` elements of `elements_size` bytes,
    /// with unspecified contents.
    ///
    /// Fails with `PersistentMappingNotSupported` where persistence is asked
    /// for and missing, else with `OutOfMemory` where the byte size overflows
    /// or the context has no handle left.
    pub fn empty(
        ctx: &mut Context,
        ty: BufferType,
        elements_size: usize,
        elements_count: usize,
        flags: BufferFlags,
    ) -> (r: Result<RawBuffer, BufferCreationError>)
        ensures
            context_after(old(ctx)@, final(ctx)@, r is Ok),
            creation_error(
                old(ctx)@,
                elements_size as int,
                elements_count as int,
                flags.persistent,
            ) matches Some(e) ==> r == Err::<RawBuffer, BufferCreationError>(e),
            creation_error(
                old(ctx)@,
                elements_size as int,
                elements_count as int,
                flags.persistent,
            ) is None ==> r is Ok,
            r matches Ok(b) ==> created(
                b@,
                old(ctx)@,
                ty,
                elements_size as int,
                elements_count as int,
                flags.persistent,
                flags.dynamic,
            ),
    {
        if flags.persistent && !ctx.supports_persistent_mapping() {
            return Err(BufferCreationError::PersistentMappingNotSupported);
        }
        if elements_count != 0 && elements_size > usize::MAX / elements_count {
            proof {
                assert(elements_size * elements_count > usize::MAX) by (nonlinear_arith)
                    requires
                        elements_count > 0,
                        elements_size > usize::MAX / elements_count,
                ;
            }
            return Err(BufferCreationError::OutOfMemory);
        }
        proof {
            assert(elements_size * elements_count <= usize::MAX) by (nonlinear_arith)
                requires
                    elements_count == 0 || elements_size <= usize::MAX / elements_count,
            ;
        }
        let id = match ctx.allocate_id() {
            Some(id) => id,
            None => {
                return Err(BufferCreationError::OutOfMemory);
            },
        };
        Ok(
            RawBuffer {
                id,
                ty,
                elements_size,
                elements_count,
                persistent: flags.persistent,
                dynamic: flags.dynamic,
                version: ctx.get_version(),
                extensions: ctx.get_extensions(),
                fences: Vec::new(),
            },
        )
    }

    /// The driver's handle.
    pub fn get_id(&self) -> (r: u32)
        ensures
            r == self@.id,
    {
        self.id
    }

    /// The binding point the buffer was made for.
    pub fn get_type(&self) -> (r: BufferType)
        ensures
            r == self@.ty,
    {
        self.ty
    }

    /// Bytes from one element to the next.
    pub fn get_elements_size(&self) -> (r: usize)
        ensures
            r == self@.elements_size,
    {
        self.elements_size
    }

    /// Number of elements.
    pub fn get_elements_count(&self) -> (r: usize)
        ensures
            r == self@.elements_count,
    {
        self.elements_count
    }

    /// Whether the buffer is mapped persistently.
    pub fn is_persistent(&self) -> (r: bool)
        ensures
            r == self@.persistent,
    {
        self.persistent
    }

    /// Whether the contents were announced as changing often.
    pub fn is_dynamic(&self) -> (r: bool)
        ensures
            r == self@.dynamic,
    {
        self.dynamic
    }

    /// Version of the context that made the buffer.
    pub fn get_version(&self) -> (r: Version)
        ensures
            r == self@.version,
    {
        self.version
    }

    /// Extensions of the context that made the buffer.
    pub fn get_extensions(&self) -> (r: ExtensionsList)
        ensures
            r == self@.extensions,
    {
        self.extensions
    }

    /// Registers a fence that the GPU will signal when done with its region.
    pub fn add_fence(&mut self, fence: LinearSyncFence)
        ensures
            final(self)@ == (RawBufferView { fences: old(self)@.fences.push(fence), ..old(self)@ }),
    {
        self.fences.push(fence);
    }

    /// The pending fences, oldest first.
    pub fn pending_fences(&self) -> (r: &Vec<LinearSyncFence>)
        ensures
            r@ == self@.fences,
    {
        &self.fences
    }

    /// The pending fences that a use of `[offset, offset + length)` has to
    /// wait for. The use may go ahead at once exactly where this is empty.
    pub fn fences_blocking(&self, offset: usize, length: usize) -> (r: Vec<LinearSyncFence>)
        ensures
            r@ == fences_over(self@.fences, offset as int, length as int),
    {
        let mut r: Vec<LinearSyncFence> = Vec::new();
        let mut i: usize = 0;
        while i < self.fences.len()
            invariant
                i <= self.fences@.len(),
                r@ == fences_over(self.fences@.subrange(0, i as int), offset as int, length as int),
            decreases self.fences@.len() - i,
        {
            let f = self.fences[i];
            proof {
                reveal(Seq::filter);
                assert(self.fences@.subrange(0, i + 1).drop_last() =~= self.fences@.subrange(
                    0,
                    i as int,
                ));
            }
            if f.length > 0 && length > 0 && (f.offset as u128) < (offset as u128) + (
            length as u128) && (offset as u128) < (f.offset as u128) + (f.length as u128) {
                r.push(f);
            }
            i = i + 1;
        }
        assert(self.fences@.subrange(0, i as int) =~= self.fences@);
        r
    }

    /// Fence `id` has signalled: the GPU is done with its region.
    pub fn signal_fence(&mut self, id: u64)
        ensures
            final(self)@ == (RawBufferView {
                fences: fences_without(old(self)@.fences, id),
                ..old(self)@
            }),
    {
        let mut kept: Vec<LinearSyncFence> = Vec::new();
        let mut i: usize = 0;
        while i < self.fences.len()
            invariant
                i <= self.fences@.len(),
                kept@ == fences_without(self.fences@.subrange(0, i as int), id),
            decreases self.fences@.len() - i,
        {
            let f = self.fences[i];
            proof {
                reveal(Seq::filter);
                assert(self.fences@.subrange(0, i + 1).drop_last() =~= self.fences@.subrange(
                    0,
                    i as int,
                ));
            }
            if f.id != id {
                kept.push(f);
            }
            i = i + 1;
        }
        assert(self.fences@.subrange(0, i as int) =~= self.fences@);
        self.fences = kept;
    }
}

/// A fence added over a region disjoint from `[offset, offset + length)`
/// leaves what a use of that range waits for unchanged; one that overlaps it
/// makes the use wait for it, last.
pub proof fn lemma_added_fence_blocks_overlapping(
    fences: Seq<LinearSyncFence>,
    f: LinearSyncFence,
    offset: int,
    length: int,
)
    ensures
        !overlaps(f, offset, length) ==> fences_over(fences.push(f), offset, length) == fences_over(
            fences,
            offset,
            length,
        ),
        overlaps(f, offset, length) ==> fences_over(fences.push(f), offset, length) == fences_over(
            fences,
            offset,
            length,
        ).push(f),
{
    reveal(Seq::filter);
    assert(fences.push(f).drop_last() =~= fences);
}

} // verus!
