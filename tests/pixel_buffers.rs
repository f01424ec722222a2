use gpu_buffers::buffer::{BufferCreationError, BufferFlags, BufferType, RawBuffer};
use gpu_buffers::context::{Api, Context, ExtensionsList, Version};
use gpu_buffers::pixel_buffer::{store_infos, ClientFormat, PixelBuffer};

fn context(storage: bool) -> Context {
    Context::new(
        Version(Api::Gl, 3, 0),
        ExtensionsList { gl_arb_instanced_arrays: false, gl_arb_buffer_storage: storage, gl_read_buffer: true },
    )
}

#[test]
fn empty_pixel_buffer_has_its_capacity() {
    let mut ctx = context(false);
    let pb: PixelBuffer<u8> = PixelBuffer::new_empty(&mut ctx, 64).unwrap();
    assert_eq!(pb.len(), 64);
    assert_eq!(pb.get_id(), 1);
    assert_eq!(pb.get_dimensions(), None);
    assert_eq!(pb.get_format(), None);
}

#[test]
fn stored_infos_are_reported() {
    let mut ctx = context(false);
    let mut pb: PixelBuffer<u8> = PixelBuffer::new_empty(&mut ctx, 64).unwrap();
    store_infos(&mut pb, (4, 4), ClientFormat::U8U8U8U8);
    assert_eq!(pb.get_dimensions(), Some((4, 4)));
    assert_eq!(pb.get_format(), Some(ClientFormat::U8U8U8U8));
    assert_eq!(ClientFormat::U8U8U8U8.get_size(), 4);
    assert_eq!(ClientFormat::F32F32F32.get_size(), 12);
}

#[test]
fn raw_buffer_reports_shape_and_errors() {
    let mut ctx = context(false);
    let b = RawBuffer::empty(&mut ctx, BufferType::PixelPackBuffer, 4, 8, BufferFlags::simple()).unwrap();
    assert_eq!(b.get_elements_size(), 4);
    assert_eq!(b.get_elements_count(), 8);
    assert_eq!(b.get_type(), BufferType::PixelPackBuffer);
    assert!(!b.is_persistent());
    let e = RawBuffer::empty(&mut ctx, BufferType::ArrayBuffer, 4, 8, BufferFlags::persistent());
    assert_eq!(e.err(), Some(BufferCreationError::PersistentMappingNotSupported));
    let e = RawBuffer::empty(&mut ctx, BufferType::ArrayBuffer, usize::MAX, 2, BufferFlags::simple());
    assert_eq!(e.err(), Some(BufferCreationError::OutOfMemory));
    let mut ctx = context(true);
    let p = RawBuffer::empty(&mut ctx, BufferType::ArrayBuffer, 4, 8, BufferFlags::persistent()).unwrap();
    assert!(p.is_persistent());
}
