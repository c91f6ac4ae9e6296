//! Typed attribute descriptors: how each vertex field type describes itself
//! to the driver.

use vstd::prelude::*;

verus! {

/// Scalar type the driver reads each attribute component as.
#[derive(Clone, Copy, Debug, PartialEq, Eq, Structural)]
pub enum ElementType {
    /// 32-bit IEEE float.
    Float,
    /// Signed 8-bit integer.
    Byte,
    /// One 32-bit word packing 2-10-10-10 bits, most significant channel last.
    UnsignedInt2101010Rev,
}

/// The closed set of field types a vertex record may be built from.
#[derive(Clone, Copy, Debug, PartialEq, Eq, Structural)]
pub enum VertexFieldType {
    /// Three 32-bit floats.
    Vec3F32,
    /// Four channels packed into 32 bits (10, 10, 10 and 2 bits).
    Rgba2101010,
    /// One signed byte, read as an integer.
    I8,
    /// One signed byte, read as a normalized float.
    I8Normalized,
}

impl VertexFieldType {
    pub open spec fn spec_component_count(self) -> u32 {
        match self {
            VertexFieldType::Vec3F32 => 3,
            VertexFieldType::Rgba2101010 => 4,
            VertexFieldType::I8 => 1,
            VertexFieldType::I8Normalized => 1,
        }
    }

    pub open spec fn spec_element_type(self) -> ElementType {
        match self {
            VertexFieldType::Vec3F32 => ElementType::Float,
            VertexFieldType::Rgba2101010 => ElementType::UnsignedInt2101010Rev,
            VertexFieldType::I8 => ElementType::Byte,
            VertexFieldType::I8Normalized => ElementType::Byte,
        }
    }

    /// Whether integer data is mapped to the range of a normalized float.
    pub open spec fn spec_normalized(self) -> bool {
        match self {
            VertexFieldType::Rgba2101010 => true,
            VertexFieldType::I8Normalized => true,
            _ => false,
        }
    }

    /// Whether the shader reads the field as an integer (the integer pointer form).
    pub open spec fn spec_integral(self) -> bool {
        self == VertexFieldType::I8
    }

    /// Bytes one field of this type takes in a vertex record.
    pub open spec fn spec_byte_size(self) -> nat {
        match self {
            VertexFieldType::Vec3F32 => 12,
            VertexFieldType::Rgba2101010 => 4,
            VertexFieldType::I8 => 1,
            VertexFieldType::I8Normalized => 1,
        }
    }

    pub fn component_count(&self) -> (r: u32)
        ensures
            r == self.spec_component_count(),
    {
        match self {
            VertexFieldType::Vec3F32 => 3,
            VertexFieldType::Rgba2101010 => 4,
            VertexFieldType::I8 => 1,
            VertexFieldType::I8Normalized => 1,
        }
    }

    pub fn element_type(&self) -> (r: ElementType)
        ensures
            r == self.spec_element_type(),
    {
        match self {
            VertexFieldType::Vec3F32 => ElementType::Float,
            VertexFieldType::Rgba2101010 => ElementType::UnsignedInt2101010Rev,
            VertexFieldType::I8 => ElementType::Byte,
            VertexFieldType::I8Normalized => ElementType::Byte,
        }
    }

    pub fn normalized(&self) -> (r: bool)
        ensures
            r == self.spec_normalized(),
    {
        match self {
            VertexFieldType::Rgba2101010 => true,
            VertexFieldType::I8Normalized => true,
            _ => false,
        }
    }

    pub fn integral(&self) -> (r: bool)
        ensures
            r == self.spec_integral(),
    {
        match self {
            VertexFieldType::I8 => true,
            _ => false,
        }
    }

    pub fn byte_size(&self) -> (r: usize)
        ensures
            r == self.spec_byte_size(),
    {
        match self {
            VertexFieldType::Vec3F32 => 12,
            VertexFieldType::Rgba2101010 => 4,
            VertexFieldType::I8 => 1,
            VertexFieldType::I8Normalized => 1,
        }
    }
}

/// One attribute-pointer registration: read `components` values of
/// `element` at `offset` bytes into each `stride`-byte record, into slot
/// `location`. With `integer` set the integer pointer form is used and
/// `normalized` is false.
#[derive(Clone, Copy, Debug, PartialEq, Eq, Structural)]
pub struct AttribPointer {
    pub location: usize,
    pub components: u32,
    pub element: ElementType,
    pub normalized: bool,
    pub integer: bool,
    pub stride: usize,
    pub offset: usize,
}

pub open spec fn spec_describe(
    ty: VertexFieldType,
    stride: usize,
    location: usize,
    offset: usize,
) -> AttribPointer {
    AttribPointer {
        location,
        components: ty.spec_component_count(),
        element: ty.spec_element_type(),
        normalized: ty.spec_normalized(),
        integer: ty.spec_integral(),
        stride,
        offset,
    }
}

/// The registration that a field of type `ty` asks of the driver.
pub fn describe(ty: VertexFieldType, stride: usize, location: usize, offset: usize) -> (r:
    AttribPointer)
    ensures
        r == spec_describe(ty, stride, location, offset),
{
    AttribPointer {
        location,
        components: ty.component_count(),
        element: ty.element_type(),
        normalized: ty.normalized(),
        integer: ty.integral(),
        stride,
        offset,
    }
}

} // verus!
