use gpu_buffers::buffer::{BufferCreationError, LinearSyncFence};
use gpu_buffers::context::{Api, Context, ExtensionsList, Version};
use gpu_buffers::vertex::{check_bindings, AttributeType, Binding, Vertex, VertexFormat, VerticesSource};
use gpu_buffers::vertex_buffer::VertexBuffer;

#[derive(Copy, Clone, Debug, PartialEq)]
struct Vtx {
    position: [f32; 3],
    texcoords: [f32; 2],
}

impl Vertex for Vtx {
    // Read by the verifier only; never called at run time.
    fn spec_bindings() -> vstd::seq::Seq<Binding> {
        unreachable!()
    }

    fn build_bindings() -> VertexFormat {
        vec![
            Binding { name: "position".to_string(), offset: 0, ty: AttributeType::F32F32F32 },
            Binding { name: "texcoords".to_string(), offset: 12, ty: AttributeType::F32F32 },
        ]
    }
}

#[derive(Copy, Clone, Debug, PartialEq)]
struct Num(u32);

impl Vertex for Num {
    // Read by the verifier only; never called at run time.
    fn spec_bindings() -> vstd::seq::Seq<Binding> {
        unreachable!()
    }

    fn build_bindings() -> VertexFormat {
        vec![Binding { name: "value".to_string(), offset: 0, ty: AttributeType::U32 }]
    }
}

fn exts(instanced: bool, storage: bool, read: bool) -> ExtensionsList {
    ExtensionsList {
        gl_arb_instanced_arrays: instanced,
        gl_arb_buffer_storage: storage,
        gl_read_buffer: read,
    }
}

fn full_context() -> Context {
    Context::new(Version(Api::Gl, 4, 5), exts(true, true, true))
}

fn two_vertices() -> Vec<Vtx> {
    vec![
        Vtx { position: [0.0, 0.0, 0.0], texcoords: [0.0, 1.0] },
        Vtx { position: [5.0, -3.0, 2.0], texcoords: [1.0, 0.0] },
    ]
}

#[test]
fn two_vertex_buffer_len_size_and_slices() {
    let mut ctx = full_context();
    let mut vb = VertexBuffer::new(&mut ctx, two_vertices()).unwrap();
    assert_eq!(vb.len(), 2);
    assert_eq!(vb.get_elements_size(), 20);
    assert!(vb.slice(0, 2).is_some());
    assert!(vb.slice(1, 2).is_none());
}

#[test]
fn persistent_without_extension_is_absent() {
    let mut ctx = Context::new(Version(Api::Gl, 4, 5), exts(true, false, true));
    assert!(VertexBuffer::new_persistent_if_supported(&mut ctx, two_vertices()).is_none());
    let after = VertexBuffer::new(&mut ctx, two_vertices()).unwrap();
    assert_eq!(after.get_id(), 1);
}

#[test]
fn persistent_with_extension_is_persistent() {
    let mut ctx = full_context();
    let vb = VertexBuffer::new_persistent_if_supported(&mut ctx, two_vertices()).unwrap();
    assert!(vb.is_persistent());
    let plain = VertexBuffer::new(&mut ctx, two_vertices()).unwrap();
    assert!(!plain.is_persistent());
    let forced = VertexBuffer::new_persistent(&mut ctx, two_vertices()).unwrap();
    assert!(forced.is_persistent());
    assert!(!forced.is_dynamic());
}

#[test]
fn dynamic_buffers_carry_the_usage_hint() {
    let mut ctx = full_context();
    let d = VertexBuffer::new_dynamic(&mut ctx, two_vertices()).unwrap();
    assert!(d.is_dynamic());
    assert!(!d.is_persistent());
    assert_eq!(d.get_bindings(), &Vtx::build_bindings());
    let s = VertexBuffer::new(&mut ctx, two_vertices()).unwrap();
    assert!(!s.is_dynamic());
    assert_eq!(s.get_bindings(), &Vtx::build_bindings());
}

#[test]
fn oversized_elements_run_out_of_memory() {
    let mut ctx = full_context();
    let bindings = vec![Binding { name: "a".to_string(), offset: 0, ty: AttributeType::U8 }];
    let r = VertexBuffer::new_raw(&mut ctx, vec![1u8, 2u8], bindings, usize::MAX);
    assert_eq!(r.err(), Some(BufferCreationError::OutOfMemory));
}

#[test]
fn handles_are_handed_out_in_order() {
    let mut ctx = full_context();
    let a = VertexBuffer::new(&mut ctx, vec![Num(1)]).unwrap();
    let b = VertexBuffer::new_dynamic(&mut ctx, vec![Num(2)]).unwrap();
    assert_eq!(a.get_id(), 1);
    assert_eq!(b.get_id(), 2);
}

#[test]
fn slice_past_end_is_absent() {
    let mut ctx = full_context();
    let mut vb = VertexBuffer::new(&mut ctx, vec![Num(1), Num(2), Num(3)]).unwrap();
    assert!(vb.slice(3, 0).is_some());
    assert!(vb.slice(4, 0).is_none());
    assert!(vb.slice(2, 2).is_none());
    assert!(vb.slice(usize::MAX, 2).is_none());
    let any = vb.into_vertex_buffer_any();
    assert!(any.slice(0, 3).is_some());
    assert!(any.slice(1, 3).is_none());
}

#[test]
fn slice_write_then_read_round_trips() {
    let mut ctx = full_context();
    let mut vb = VertexBuffer::new(&mut ctx, vec![Num(1), Num(2), Num(3), Num(4)]).unwrap();
    vb.slice(1, 2).unwrap().write(vec![Num(20), Num(30)]);
    {
        let s = vb.slice(1, 2).unwrap();
        assert_eq!(s.read_if_supported(), Some(vec![Num(20), Num(30)]));
        assert_eq!(s.read(), vec![Num(20), Num(30)]);
    }
    assert_eq!(vb.read(), vec![Num(1), Num(20), Num(30), Num(4)]);
}

#[test]
fn write_then_read_round_trips() {
    let mut ctx = full_context();
    let mut vb = VertexBuffer::new(&mut ctx, two_vertices()).unwrap();
    let s = vec![
        Vtx { position: [1.0, 2.0, 3.0], texcoords: [0.5, 0.5] },
        Vtx { position: [-1.0, 0.0, 7.5], texcoords: [0.25, 1.0] },
    ];
    vb.write(s.clone());
    assert_eq!(vb.read_if_supported(), Some(s));
}

#[test]
fn read_without_capability_is_absent() {
    let mut ctx = Context::new(Version(Api::Gl, 4, 5), exts(true, true, false));
    let mut vb = VertexBuffer::new(&mut ctx, vec![Num(1), Num(2)]).unwrap();
    assert_eq!(vb.read_if_supported(), None);
    assert_eq!(vb.slice(0, 1).unwrap().read_if_supported(), None);
}

#[test]
fn map_twice_shows_same_contents() {
    let mut ctx = full_context();
    let mut vb = VertexBuffer::new(&mut ctx, vec![Num(7), Num(8)]).unwrap();
    let first = vb.map().to_vec();
    let second = vb.map().to_vec();
    assert_eq!(first, vec![Num(7), Num(8)]);
    assert_eq!(first, second);
}

#[test]
fn writes_through_mapping_reach_buffer() {
    let mut ctx = full_context();
    let mut vb = VertexBuffer::new(&mut ctx, vec![Num(7), Num(8)]).unwrap();
    {
        let mut m = vb.map();
        m[1] = Num(80);
        m.0[0] = Num(70);
    }
    assert_eq!(vb.read(), vec![Num(70), Num(80)]);
}

#[test]
fn erase_and_retype_keeps_layout() {
    let mut ctx = full_context();
    let vb = VertexBuffer::new(&mut ctx, two_vertices()).unwrap();
    let len = vb.len();
    let size = vb.get_elements_size();
    let bindings = vb.get_bindings().clone();
    let id = vb.get_id();
    let any = vb.into_vertex_buffer_any();
    assert_eq!(any.len(), 2);
    assert_eq!(any.get_elements_size(), 20);
    let back: VertexBuffer<Vtx> = any.into_vertex_buffer(two_vertices());
    assert_eq!(back.len(), len);
    assert_eq!(back.get_elements_size(), size);
    assert_eq!(back.get_bindings(), &bindings);
    assert_eq!(back.get_id(), id);
}

#[test]
fn fences_block_only_overlapping_maps() {
    let mut ctx = full_context();
    let mut vb = VertexBuffer::new(&mut ctx, vec![Num(0); 10]).unwrap();
    vb.slice(0, 4).unwrap().add_fence(77);
    assert!(vb.fences_blocking(5, 5).is_empty());
    assert_eq!(
        vb.fences_blocking(3, 2),
        vec![LinearSyncFence { id: 77, offset: 0, length: 4 }]
    );
    assert!(!vb.fences_blocking(0, 10).is_empty());
    {
        let s = vb.slice(5, 5).unwrap();
        assert_eq!(s.read(), vec![Num(0); 5]);
    }
    vb.signal_fence(77);
    assert!(vb.fences_blocking(0, 10).is_empty());
    let m = vb.map();
    assert_eq!(m.len(), 10);
}

#[test]
fn whole_buffer_fence_and_signal() {
    let mut ctx = full_context();
    let mut vb = VertexBuffer::new(&mut ctx, vec![Num(1), Num(2)]).unwrap();
    vb.add_fence(1);
    vb.add_fence(2);
    assert_eq!(vb.fences_blocking(1, 1).len(), 2);
    vb.signal_fence(1);
    assert_eq!(
        vb.fences_blocking(0, 2),
        vec![LinearSyncFence { id: 2, offset: 0, length: 2 }]
    );
    assert!(vb.fences_blocking(0, 0).is_empty());
}

#[test]
fn instancing_depends_on_version_or_extension() {
    let mut old = Context::new(Version(Api::Gl, 3, 2), exts(false, false, true));
    let vb = VertexBuffer::new(&mut old, vec![Num(1)]).unwrap();
    assert!(vb.per_instance_if_supported().is_none());

    let mut es = Context::new(Version(Api::GlEs, 3, 3), exts(false, false, true));
    let vb = VertexBuffer::new(&mut es, vec![Num(1)]).unwrap();
    assert!(vb.per_instance_if_supported().is_none());

    let mut ext = Context::new(Version(Api::Gl, 2, 1), exts(true, false, true));
    let vb = VertexBuffer::new(&mut ext, vec![Num(1)]).unwrap();
    assert!(vb.per_instance_if_supported().is_some());

    let mut gl33 = Context::new(Version(Api::Gl, 3, 3), exts(false, false, true));
    let vb = VertexBuffer::new(&mut gl33, vec![Num(1), Num(2)]).unwrap();
    let src = vb.per_instance().into_vertices_source();
    assert_eq!(src, VerticesSource { buffer_id: 1, offset: 0, length: 2, per_instance: true });
}

#[test]
fn vertices_sources_describe_ranges() {
    let mut ctx = full_context();
    let mut vb = VertexBuffer::new(&mut ctx, vec![Num(1), Num(2), Num(3)]).unwrap();
    assert_eq!(
        vb.into_vertices_source(),
        VerticesSource { buffer_id: 1, offset: 0, length: 3, per_instance: false }
    );
    assert_eq!(
        vb.slice(1, 2).unwrap().into_vertices_source(),
        VerticesSource { buffer_id: 1, offset: 1, length: 2, per_instance: false }
    );
    let any = vb.into_vertex_buffer_any();
    assert_eq!(
        any.slice(0, 1).unwrap().into_vertices_source(),
        VerticesSource { buffer_id: 1, offset: 0, length: 1, per_instance: false }
    );
    assert_eq!(
        any.into_vertices_source(),
        VerticesSource { buffer_id: 1, offset: 0, length: 3, per_instance: false }
    );
}

#[test]
fn bindings_are_checked_against_element_size() {
    let b = Vtx::build_bindings();
    assert!(check_bindings(&b, 20));
    assert!(!check_bindings(&b, 19));
    assert!(check_bindings(&Vec::new(), 0));
    assert_eq!(AttributeType::F32F32F32.get_size_bytes(), 12);
    assert_eq!(AttributeType::U16U16U16.get_size_bytes(), 6);
    assert_eq!(AttributeType::F32x4x4.get_size_bytes(), 64);
}

#[test]
fn raw_layout_is_kept() {
    let mut ctx = full_context();
    let bindings = vec![
        Binding { name: "position".to_string(), offset: 0, ty: AttributeType::F32F32 },
        Binding { name: "color".to_string(), offset: 8, ty: AttributeType::F32 },
    ];
    let data = vec![1.0f32, -0.3, 409.0, -0.4, 2.8, 715.0];
    let vb = VertexBuffer::new_raw(&mut ctx, data, bindings.clone(), 12).unwrap();
    assert_eq!(vb.get_elements_size(), 12);
    assert_eq!(vb.get_bindings(), &bindings);
    assert_eq!(vb.len(), 6);
}
