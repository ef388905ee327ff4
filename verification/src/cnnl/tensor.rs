//! Tensor descriptors.
use vstd::prelude::*;
use crate::cnnl::data_type::DataType;

verus! {

/// A tensor descriptor (`cnnlTensorDescriptor_t`, held as its address).
#[derive(Clone, Copy, PartialEq, Eq, Structural, Hash, Debug)]
pub struct Tensor(pub usize);

/// How a tensor's elements are laid out (`cnnlTensorLayout_t`).
#[derive(Clone, Copy, PartialEq, Eq, Structural, Hash, Debug)]
pub enum TensorLayout {
    /// A plain array, addressed by the strides.
    Array,
}

/// What a tensor descriptor is set to: a layout of `dims` dimensions of the element type, with
/// these extents and strides.
#[derive(Debug)]
pub struct TensorDescriptor {
    pub layout: TensorLayout,
    pub data_type: DataType,
    pub dims: i32,
    pub shape: Vec<i64>,
    pub strides: Vec<i64>,
}

/// A copy of a list of extents or strides.
fn copy_extents(s: &[i64]) -> (v: Vec<i64>)
    ensures
        v@ == s@,
{
    let mut v: Vec<i64> = Vec::new();
    let mut i: usize = 0;
    while i < s.len()
        invariant
            i <= s@.len(),
            v@ == s@.subrange(0, i as int),
        decreases s.len() - i,
    {
        v.push(s[i]);
        i = i + 1;
    }
    assert(v@ =~= s@);
    v
}

impl Tensor {
    /// The raw descriptor.
    pub fn as_raw(&self) -> (raw: usize)
        ensures
            raw == self.0,
    {
        self.0
    }

    /// The settings of a new descriptor: the array layout, the element type, as many dimensions as the shape has
    /// (converted with `as`), the shape and the strides, which must be as many.
    pub fn new(dt: DataType, shape: &[i64], strides: &[i64]) -> (d: TensorDescriptor)
        requires
            shape@.len() == strides@.len(),
        ensures
            d.layout == TensorLayout::Array,
            d.data_type == dt,
            d.dims == shape@.len() as i32,
            d.shape@ == shape@,
            d.strides@ == strides@,
    {
        TensorDescriptor {
            layout: TensorLayout::Array,
            data_type: dt,
            dims: shape.len() as i32,
            shape: copy_extents(shape),
            strides: copy_extents(strides),
        }
    }
}

} // verus!
