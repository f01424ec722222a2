use vstd::prelude::*;

verus! {

/// The type of one attribute of a vertex.
#[derive(Clone, Copy, Debug, PartialEq, Eq, Structural)]
pub enum AttributeType {
    I8,
    I8I8,
    I8I8I8,
    I8I8I8I8,
    U8,
    U8U8,
    U8U8U8,
    U8U8U8U8,
    I16,
    I16I16,
    I16I16I16,
    I16I16I16I16,
    U16,
    U16U16,
    U16U16U16,
    U16U16U16U16,
    I32,
    I32I32,
    I32I32I32,
    I32I32I32I32,
    U32,
    U32U32,
    U32U32U32,
    U32U32U32U32,
    F32,
    F32F32,
    F32F32F32,
    F32F32F32F32,
    F32x4x4,
}

/// Bytes taken by one attribute of type `t`.
pub open spec fn attribute_size(t: AttributeType) -> nat {
    match t {
        AttributeType::I8 | AttributeType::U8 => 1,
        AttributeType::I8I8 | AttributeType::U8U8 => 2,
        AttributeType::I8I8I8 | AttributeType::U8U8U8 => 3,
        AttributeType::I8I8I8I8 | AttributeType::U8U8U8U8 => 4,
        AttributeType::I16 | AttributeType::U16 => 2,
        AttributeType::I16I16 | AttributeType::U16U16 => 4,
        AttributeType::I16I16I16 | AttributeType::U16U16U16 => 6,
        AttributeType::I16I16I16I16 | AttributeType::U16U16U16U16 => 8,
        AttributeType::I32 | AttributeType::U32 | AttributeType::F32 => 4,
        AttributeType::I32I32 | AttributeType::U32U32 | AttributeType::F32F32 => 8,
        AttributeType::I32I32I32 | AttributeType::U32U32U32 | AttributeType::F32F32F32 => 12,
        AttributeType::I32I32I32I32 | AttributeType::U32U32U32U32 | AttributeType::F32F32F32F32 => 16,
        AttributeType::F32x4x4 => 64,
    }
}

impl AttributeType {
    /// Bytes taken by one attribute of this type.
    pub fn get_size_bytes(&self) -> (r: usize)
        ensures
            r == attribute_size(*self),
    {
        match self {
            AttributeType::I8 | AttributeType::U8 => 1,
            AttributeType::I8I8 | AttributeType::U8U8 => 2,
            AttributeType::I8I8I8 | AttributeType::U8U8U8 => 3,
            AttributeType::I8I8I8I8 | AttributeType::U8U8U8U8 => 4,
            AttributeType::I16 | AttributeType::U16 => 2,
            AttributeType::I16I16 | AttributeType::U16U16 => 4,
            AttributeType::I16I16I16 | AttributeType::U16U16U16 => 6,
            AttributeType::I16I16I16I16 | AttributeType::U16U16U16U16 => 8,
            AttributeType::I32 | AttributeType::U32 | AttributeType::F32 => 4,
            AttributeType::I32I32 | AttributeType::U32U32 | AttributeType::F32F32 => 8,
            AttributeType::I32I32I32 | AttributeType::U32U32U32 | AttributeType::F32F32F32 => 12,
            AttributeType::I32I32I32I32
            | AttributeType::U32U32U32U32
            | AttributeType::F32F32F32F32 => 16,
            AttributeType::F32x4x4 => 64,
        }
    }
}

/// One named attribute of a vertex: where it starts in the element, and its type.
#[derive(Clone, Debug, PartialEq, Eq)]
pub struct Binding {
    pub name: String,
    pub offset: usize,
    pub ty: AttributeType,
}

/// The attributes of a vertex type, in order.
pub type VertexFormat = Vec<Binding>;

/// Every attribute of `bindings` lies inside an element of `elements_size` bytes.
pub open spec fn bindings_fit(bindings: Seq<Binding>, elements_size: int) -> bool {
    forall|i: int|
        0 <= i < bindings.len() ==> #[trigger] bindings[i].offset + attribute_size(bindings[i].ty)
            <= elements_size
}

/// Checks that every attribute of `bindings` lies inside an element of
/// `elements_size` bytes.
pub fn check_bindings(bindings: &VertexFormat, elements_size: usize) -> (r: bool)
    ensures
        r == bindings_fit(bindings@, elements_size as int),
{
    let mut i: usize = 0;
    while i < bindings.len()
        invariant
            i <= bindings@.len(),
            bindings_fit(bindings@.subrange(0, i as int), elements_size as int),
        decreases bindings@.len() - i,
    {
        let b = &bindings[i];
        let size = b.ty.get_size_bytes();
        if b.offset as u128 + size as u128 > elements_size as u128 {
            assert(bindings@[i as int] == *b);
            assert(!bindings_fit(bindings@, elements_size as int));
            return false;
        }
        assert forall|k: int| 0 <= k < i + 1 implies #[trigger] bindings@.subrange(
            0,
            i + 1,
        )[k].offset + attribute_size(bindings@.subrange(0, i + 1)[k].ty)
            <= elements_size by {
            if k < i {
                assert(bindings@.subrange(0, i + 1)[k] == bindings@.subrange(0, i as int)[k]);
            }
        }
        i = i + 1;
    }
    assert(bindings@.subrange(0, i as int) =~= bindings@);
    true
}

/// A type whose values can be stored in a vertex buffer.
pub trait Vertex: Copy + Sized {
    /// The attributes of the type, in order.
    spec fn spec_bindings() -> Seq<Binding>;

    /// The attributes of the type, each inside its `size_of` bytes.
    fn build_bindings() -> (r: VertexFormat)
        ensures
            r@ == Self::spec_bindings(),
            bindings_fit(r@, vstd::layout::size_of::<Self>() as int),
    ;
}

/// What a draw call reads vertices from: a buffer handle, a range of its
/// elements, and whether they advance once per instance.
#[derive(Clone, Copy, Debug, PartialEq, Eq, Structural)]
pub struct VerticesSource {
    pub buffer_id: u32,
    pub offset: usize,
    pub length: usize,
    pub per_instance: bool,
}

} // verus!
