use gl_triangle::attrib::{ElementType, VertexFieldType};
use gl_triangle::data::{VertI8, VertI8Float, VertRGBA};

#[test]
fn packed_channels_round_trip() {
    let c = VertRGBA::from_channels(1, 2, 3, 2);
    assert_eq!(c.inner, 1 | (2 << 10) | (3 << 20) | (2 << 30));
    assert_eq!((c.x(), c.y(), c.z(), c.w()), (1, 2, 3, 2));
    let raw = VertRGBA::from_raw(0xFFFF_FFFF);
    assert_eq!((raw.x(), raw.y(), raw.z(), raw.w()), (1023, 1023, 1023, 3));
}

#[test]
fn byte_fields() {
    assert_eq!(VertI8::new(-5).x, -5);
    assert_eq!(VertI8::from(7).x, 7);
    assert_eq!(VertI8Float::new(-128).x, -128);
    assert_eq!(VertI8Float::from(127).x, 127);
    assert_eq!(VertI8::field_type(), VertexFieldType::I8);
    assert_eq!(VertI8Float::field_type(), VertexFieldType::I8Normalized);
    assert_eq!(VertRGBA::field_type(), VertexFieldType::Rgba2101010);
}

#[test]
fn byte_field_registrations() {
    let i = VertI8::vertex_attrib_pointer(2, 4, 1);
    assert!(i.integer);
    assert!(!i.normalized);
    assert_eq!((i.location, i.offset, i.stride, i.components), (4, 1, 2, 1));
    let f = VertI8Float::vertex_attrib_pointer(2, 5, 0);
    assert!(!f.integer);
    assert!(f.normalized);
    assert_eq!(f.element, ElementType::Byte);
    let c = VertRGBA::vertex_attrib_pointer(16, 1, 12);
    assert_eq!((c.components, c.element, c.offset), (4, ElementType::UnsignedInt2101010Rev, 12));
}
