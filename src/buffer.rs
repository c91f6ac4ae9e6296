//! Buffer targets and the size of a static upload.

use vstd::prelude::*;

verus! {

/// The binding point a buffer is created for; fixed for its lifetime.
#[derive(Clone, Copy, Debug, PartialEq, Eq, Structural)]
pub enum BufferTarget {
    /// Per-vertex attribute data.
    Array,
    /// Vertex indices.
    ElementArray,
}

/// A marker type that fixes a buffer's target at compile time.
pub trait BufferType {
    spec fn spec_target() -> BufferTarget;

    fn target() -> (r: BufferTarget)
        ensures
            r == Self::spec_target(),
    ;
}

/// Marker for buffers of vertex attribute data.
pub struct BufferTypeArray;

impl BufferType for BufferTypeArray {
    open spec fn spec_target() -> BufferTarget {
        BufferTarget::Array
    }

    fn target() -> (r: BufferTarget) {
        BufferTarget::Array
    }
}

/// Marker for buffers of vertex indices.
pub struct BufferTypeElementArray;

impl BufferType for BufferTypeElementArray {
    open spec fn spec_target() -> BufferTarget {
        BufferTarget::ElementArray
    }

    fn target() -> (r: BufferTarget) {
        BufferTarget::ElementArray
    }
}

/// The number of bytes a static upload of `count` records of `stride`
/// bytes each copies: `Some(count * stride)` when that size fits the
/// driver's signed size type, `None` otherwise.
pub fn static_draw_byte_len(count: usize, stride: usize) -> (r: Option<usize>)
    ensures
        count * stride <= isize::MAX ==> r is Some && r->Some_0 == count * stride,
        count * stride > isize::MAX ==> r is None,
{
    if stride == 0 {
        assert(count * stride == 0) by (nonlinear_arith)
            requires
                stride == 0,
        ;
        return Some(0);
    }
    let max: usize = isize::MAX as usize;
    if count > max / stride {
        assert(count * stride > isize::MAX) by (nonlinear_arith)
            requires
                stride > 0,
                count > max / stride,
                max == isize::MAX,
        ;
        None
    } else {
        assert(count * stride <= isize::MAX) by (nonlinear_arith)
            requires
                stride > 0,
                count <= max / stride,
                max == isize::MAX,
        ;
        Some(count * stride)
    }
}

} // verus!
