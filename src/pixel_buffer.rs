//! Buffers holding two-dimensional pixel data in a client-side format, used
//! to move data to or from video memory before or after it becomes a texture.
use vstd::prelude::*;
use std::marker::PhantomData;
use crate::buffer::{
    BufferCreationError, BufferFlags, BufferType, RawBuffer, RawBufferView, context_after,
    created, creation_error,
};
use crate::context::Context;

verus! {

/// The layout of one pixel on the client side.
#[derive(Clone, Copy, Debug, PartialEq, Eq, Structural)]
pub enum ClientFormat {
    U8,
    U8U8,
    U8U8U8,
    U8U8U8U8,
    U16,
    U16U16,
    U16U16U16,
    U16U16U16U16,
    U32,
    U32U32,
    U32U32U32,
    U32U32U32U32,
    F32,
    F32F32,
    F32F32F32,
    F32F32F32F32,
}

/// Bytes taken by one pixel of format `f`.
pub open spec fn format_size(f: ClientFormat) -> nat {
    match f {
        ClientFormat::U8 => 1,
        ClientFormat::U8U8 => 2,
        ClientFormat::U8U8U8 => 3,
        ClientFormat::U8U8U8U8 => 4,
        ClientFormat::U16 => 2,
        ClientFormat::U16U16 => 4,
        ClientFormat::U16U16U16 => 6,
        ClientFormat::U16U16U16U16 => 8,
        ClientFormat::U32 | ClientFormat::F32 => 4,
        ClientFormat::U32U32 | ClientFormat::F32F32 => 8,
        ClientFormat::U32U32U32 | ClientFormat::F32F32F32 => 12,
        ClientFormat::U32U32U32U32 | ClientFormat::F32F32F32F32 => 16,
    }
}

impl ClientFormat {
    /// Bytes taken by one pixel of this format.
    pub fn get_size(&self) -> (r: usize)
        ensures
            r == format_size(*self),
    {
        match self {
            ClientFormat::U8 => 1,
            ClientFormat::U8U8 => 2,
            ClientFormat::U8U8U8 => 3,
            ClientFormat::U8U8U8U8 => 4,
            ClientFormat::U16 => 2,
            ClientFormat::U16U16 => 4,
            ClientFormat::U16U16U16 => 6,
            ClientFormat::U16U16U16U16 => 8,
            ClientFormat::U32 | ClientFormat::F32 => 4,
            ClientFormat::U32U32 | ClientFormat::F32F32 => 8,
            ClientFormat::U32U32U32 | ClientFormat::F32F32F32 => 12,
            ClientFormat::U32U32U32U32 | ClientFormat::F32F32F32F32 => 16,
        }
    }
}

/// `dimensions` pixels of `format` take exactly `bytes` bytes.
pub open spec fn infos_match(dimensions: (u32, u32), format: ClientFormat, bytes: int) -> bool {
    dimensions.0 * dimensions.1 * format_size(format) == bytes
}

/// A buffer that stores the content of a texture, with pixels of type `T`.
pub struct PixelBuffer<T> {
    buffer: RawBuffer,
    dimensions: Option<(u32, u32)>,
    format: Option<ClientFormat>,
    marker: PhantomData<T>,
}

impl<T> PixelBuffer<T> {
    pub closed spec fn raw(&self) -> RawBufferView {
        self.buffer@
    }

    /// Dimensions of the last transfer, where one was recorded.
    pub closed spec fn spec_dimensions(&self) -> Option<(u32, u32)> {
        self.dimensions
    }

    /// Pixel format of the last transfer, where one was recorded.
    pub closed spec fn spec_format(&self) -> Option<ClientFormat> {
        self.format
    }

    /// Dimensions and format are recorded together, and they account for
    /// every reserved byte.
    pub open spec fn wf(&self) -> bool {
        &&& self.spec_dimensions() is Some <==> self.spec_format() is Some
        &&& self.spec_dimensions() matches Some(d) ==> infos_match(
            d,
            self.spec_format().unwrap(),
            self.raw().elements_size * self.raw().elements_count,
        )
    }

    /// A buffer of `capacity` bytes with unspecified contents, for reading
    /// pixels back from textures.
    pub fn new_empty(ctx: &mut Context, capacity: usize) -> (r: Result<
        PixelBuffer<T>,
        BufferCreationError,
    >)
        ensures
            context_after(old(ctx)@, final(ctx)@, r is Ok),
            creation_error(old(ctx)@, 1, capacity as int, false) matches Some(e) ==> r == Err::<
                PixelBuffer<T>,
                BufferCreationError,
            >(e),
            creation_error(old(ctx)@, 1, capacity as int, false) is None ==> r is Ok,
            r matches Ok(b) ==> {
                &&& b.wf()
                &&& created(
                    b.raw(),
                    old(ctx)@,
                    BufferType::PixelPackBuffer,
                    1,
                    capacity as int,
                    false,
                    false,
                )
                &&& b.spec_dimensions() is None
            },
    {
        match RawBuffer::empty(ctx, BufferType::PixelPackBuffer, 1, capacity, BufferFlags::simple()) {
            Ok(buffer) => Ok(
                PixelBuffer { buffer, dimensions: None, format: None, marker: PhantomData },
            ),
            Err(e) => Err(e),
        }
    }

    /// Length of the buffer, in elements of one byte.
    pub fn len(&self) -> (r: usize)
        ensures
            r == self.raw().elements_count,
    {
        self.buffer.get_elements_count()
    }

    /// The driver's handle of the storage.
    pub fn get_id(&self) -> (r: u32)
        ensures
            r == self.raw().id,
    {
        self.buffer.get_id()
    }

    /// Dimensions of the last transfer, where one was recorded.
    pub fn get_dimensions(&self) -> (r: Option<(u32, u32)>)
        ensures
            r == self.spec_dimensions(),
    {
        self.dimensions
    }

    /// Pixel format of the last transfer, where one was recorded.
    pub fn get_format(&self) -> (r: Option<ClientFormat>)
        ensures
            r == self.spec_format(),
    {
        self.format
    }
}

/// Records the shape and format of the texture data that a transfer left in
/// `b`; they must account for every byte of it. Meant for the texture code.
pub fn store_infos<T>(b: &mut PixelBuffer<T>, dimensions: (u32, u32), format: ClientFormat)
    requires
        infos_match(
            dimensions,
            format,
            old(b).raw().elements_size * old(b).raw().elements_count,
        ),
    ensures
        final(b).raw() == old(b).raw(),
        final(b).spec_dimensions() == Some(dimensions),
        final(b).spec_format() == Some(format),
        final(b).wf(),
{
    b.dimensions = Some(dimensions);
    b.format = Some(format);
}

} // verus!
