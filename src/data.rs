//! Vertex field types that carry their own data: a packed color and two
//! single-byte fields.

use vstd::prelude::*;
use crate::attrib::{AttribPointer, VertexFieldType, describe, spec_describe};

verus! {

/// Values one 10-bit channel can hold.
pub const CHANNEL_10_LIMIT: u32 = 1024;

/// Values the 2-bit channel can hold.
pub const CHANNEL_2_LIMIT: u32 = 4;

/// A color packed into one 32-bit word in the 2-10-10-10 reversed layout:
/// `x` in bits 0..10, `y` in bits 10..20, `z` in bits 20..30 and `w` in
/// bits 30..32. Every channel is an unsigned fraction of its maximum.
#[derive(Clone, Copy, Debug, PartialEq, Eq, Structural)]
pub struct VertRGBA {
    pub inner: u32,
}

pub open spec fn spec_pack(x: u32, y: u32, z: u32, w: u32) -> int {
    x + y * 1024 + z * 1048576 + w * 1073741824
}

impl VertRGBA {
    pub open spec fn spec_x(self) -> u32 {
        self.inner % 1024
    }

    pub open spec fn spec_y(self) -> u32 {
        (self.inner / 1024) % 1024
    }

    pub open spec fn spec_z(self) -> u32 {
        (self.inner / 1048576) % 1024
    }

    pub open spec fn spec_w(self) -> u32 {
        self.inner / 1073741824
    }

    /// Packs four channels; each must fit its bit width.
    pub fn from_channels(x: u32, y: u32, z: u32, w: u32) -> (r: Self)
        requires
            x < CHANNEL_10_LIMIT,
            y < CHANNEL_10_LIMIT,
            z < CHANNEL_10_LIMIT,
            w < CHANNEL_2_LIMIT,
        ensures
            r.inner == spec_pack(x, y, z, w),
            r.spec_x() == x,
            r.spec_y() == y,
            r.spec_z() == z,
            r.spec_w() == w,
    {
        proof {
            assert(spec_pack(x, y, z, w) < 4294967296) by (nonlinear_arith)
                requires
                    x < 1024,
                    y < 1024,
                    z < 1024,
                    w < 4,
            ;
            lemma_unpack(x as int, y as int, z as int, w as int);
        }
        VertRGBA { inner: x + y * 1024 + z * 1048576 + w * 1073741824 }
    }

    /// Wraps a word that already holds the packed layout.
    pub fn from_raw(raw: u32) -> (r: Self)
        ensures
            r.inner == raw,
    {
        VertRGBA { inner: raw }
    }

    pub fn x(&self) -> (r: u32)
        ensures
            r == self.spec_x(),
    {
        self.inner % 1024
    }

    pub fn y(&self) -> (r: u32)
        ensures
            r == self.spec_y(),
    {
        (self.inner / 1024) % 1024
    }

    pub fn z(&self) -> (r: u32)
        ensures
            r == self.spec_z(),
    {
        (self.inner / 1048576) % 1024
    }

    pub fn w(&self) -> (r: u32)
        ensures
            r == self.spec_w(),
    {
        self.inner / 1073741824
    }

    pub fn field_type() -> (r: VertexFieldType)
        ensures
            r == VertexFieldType::Rgba2101010,
    {
        VertexFieldType::Rgba2101010
    }

    /// The registration for a field of this type at `location` and `offset`.
    pub fn vertex_attrib_pointer(stride: usize, location: usize, offset: usize) -> (r: AttribPointer)
        ensures
            r == spec_describe(VertexFieldType::Rgba2101010, stride, location, offset),
    {
        describe(VertexFieldType::Rgba2101010, stride, location, offset)
    }
}

proof fn lemma_unpack(x: int, y: int, z: int, w: int)
    requires
        0 <= x < 1024,
        0 <= y < 1024,
        0 <= z < 1024,
        0 <= w < 4,
    ensures
        (x + y * 1024 + z * 1048576 + w * 1073741824) % 1024 == x,
        ((x + y * 1024 + z * 1048576 + w * 1073741824) / 1024) % 1024 == y,
        ((x + y * 1024 + z * 1048576 + w * 1073741824) / 1048576) % 1024 == z,
        (x + y * 1024 + z * 1048576 + w * 1073741824) / 1073741824 == w,
{
    let v = x + y * 1024 + z * 1048576 + w * 1073741824;
    let a = y + z * 1024 + w * 1048576;
    let b = z + w * 1024;
    assert(v == a * 1024 + x);
    assert(a == b * 1024 + y);
    vstd::arithmetic::div_mod::lemma_fundamental_div_mod_converse(v, 1024, a, x);
    vstd::arithmetic::div_mod::lemma_fundamental_div_mod_converse(a, 1024, b, y);
    vstd::arithmetic::div_mod::lemma_fundamental_div_mod_converse(b, 1024, w, z);
    vstd::arithmetic::div_mod::lemma_div_denominator(v, 1024, 1024);
    vstd::arithmetic::div_mod::lemma_div_denominator(v, 1048576, 1024);
}

/// A single signed byte, read by the shader as an integer.
#[derive(Clone, Copy, Debug, PartialEq, Eq, Structural)]
pub struct VertI8 {
    pub x: i8,
}

impl VertI8 {
    pub fn new(x: i8) -> (r: Self)
        ensures
            r.x == x,
    {
        Self { x }
    }

    pub fn field_type() -> (r: VertexFieldType)
        ensures
            r == VertexFieldType::I8,
    {
        VertexFieldType::I8
    }

    /// The registration for a field of this type at `location` and `offset`.
    pub fn vertex_attrib_pointer(stride: usize, location: usize, offset: usize) -> (r: AttribPointer)
        ensures
            r == spec_describe(VertexFieldType::I8, stride, location, offset),
    {
        describe(VertexFieldType::I8, stride, location, offset)
    }
}

impl From<i8> for VertI8 {
    fn from(x: i8) -> (r: Self) {
        VertI8::new(x)
    }
}

impl vstd::std_specs::convert::FromSpecImpl<i8> for VertI8 {
    open spec fn obeys_from_spec() -> bool {
        true
    }

    open spec fn from_spec(v: i8) -> VertI8 {
        VertI8 { x: v }
    }
}

/// A single signed byte, read by the shader as a normalized float.
#[derive(Clone, Copy, Debug, PartialEq, Eq, Structural)]
pub struct VertI8Float {
    pub x: i8,
}

impl VertI8Float {
    pub fn new(x: i8) -> (r: Self)
        ensures
            r.x == x,
    {
        Self { x }
    }

    pub fn field_type() -> (r: VertexFieldType)
        ensures
            r == VertexFieldType::I8Normalized,
    {
        VertexFieldType::I8Normalized
    }

    /// The registration for a field of this type at `location` and `offset`.
    pub fn vertex_attrib_pointer(stride: usize, location: usize, offset: usize) -> (r: AttribPointer)
        ensures
            r == spec_describe(VertexFieldType::I8Normalized, stride, location, offset),
    {
        describe(VertexFieldType::I8Normalized, stride, location, offset)
    }
}

impl From<i8> for VertI8Float {
    fn from(x: i8) -> (r: Self) {
        VertI8Float::new(x)
    }
}

impl vstd::std_specs::convert::FromSpecImpl<i8> for VertI8Float {
    open spec fn obeys_from_spec() -> bool {
        true
    }

    open spec fn from_spec(v: i8) -> VertI8Float {
        VertI8Float { x: v }
    }
}

} // verus!
