use gl_triangle::layout::{triangle_vertex_layout, triangle_vertex_record};
use gl_triangle::attrib::{describe, ElementType, VertexFieldType};
use gl_triangle::buffer::static_draw_byte_len;
use gl_triangle::data::VertRGBA;
use gl_triangle::layout::{
    derive_layout, parse_location, vertex_attrib_pointers, FieldDecl, LayoutError, RecordDecl,
};

fn field(name: &str, field_type: VertexFieldType, location: Option<&str>) -> FieldDecl {
    FieldDecl {
        name: name.to_string(),
        field_type,
        location: location.map(|l| l.to_string()),
    }
}

#[test]
fn offsets_are_running_sums_of_field_sizes() {
    let record = RecordDecl::NamedFields(vec![
        field("pos", VertexFieldType::Vec3F32, Some("0")),
        field("color", VertexFieldType::Rgba2101010, Some("1")),
        field("tag", VertexFieldType::I8, Some("2")),
        field("weight", VertexFieldType::I8Normalized, Some("3")),
    ]);
    let layout = derive_layout(&record).unwrap();
    let offsets: Vec<usize> = layout.entries.iter().map(|e| e.offset).collect();
    assert_eq!(offsets, vec![0, 12, 16, 17]);
    assert_eq!(layout.stride, 18);
}

#[test]
fn empty_record_has_zero_stride() {
    let layout = derive_layout(&RecordDecl::NamedFields(vec![])).unwrap();
    assert!(layout.entries.is_empty());
    assert_eq!(layout.stride, 0);
}

#[test]
fn declared_locations_reach_the_registrations() {
    let record = RecordDecl::NamedFields(vec![
        field("pos", VertexFieldType::Vec3F32, Some("7")),
        field("color", VertexFieldType::Vec3F32, Some("2")),
    ]);
    let calls = vertex_attrib_pointers(&record).unwrap();
    assert_eq!(calls.len(), 2);
    assert_eq!(calls[0].location, 7);
    assert_eq!(calls[1].location, 2);
    assert_eq!(calls[0].offset, 0);
    assert_eq!(calls[1].offset, 12);
    assert_eq!(calls[0].stride, 24);
    assert_eq!(calls[1].stride, 24);
}

#[test]
fn missing_location_names_the_field() {
    let record = RecordDecl::NamedFields(vec![
        field("pos", VertexFieldType::Vec3F32, Some("0")),
        field("color", VertexFieldType::Vec3F32, None),
        field("other", VertexFieldType::I8, None),
    ]);
    match derive_layout(&record) {
        Err(LayoutError::MissingLocation { field }) => assert_eq!(field, "color"),
        other => panic!("unexpected {:?}", other),
    }
}

#[test]
fn malformed_location_names_field_and_value() {
    let record = RecordDecl::NamedFields(vec![
        field("pos", VertexFieldType::Vec3F32, Some("x1")),
    ]);
    match vertex_attrib_pointers(&record) {
        Err(LayoutError::BadLocation { field, value }) => {
            assert_eq!(field, "pos");
            assert_eq!(value, "x1");
        }
        other => panic!("unexpected {:?}", other),
    }
    let negative = RecordDecl::NamedFields(vec![
        field("pos", VertexFieldType::Vec3F32, Some("0")),
        field("color", VertexFieldType::Vec3F32, Some("-1")),
    ]);
    match derive_layout(&negative) {
        Err(LayoutError::BadLocation { field, value }) => {
            assert_eq!(field, "color");
            assert_eq!(value, "-1");
        }
        other => panic!("unexpected {:?}", other),
    }
}

#[test]
fn non_flat_record_is_refused() {
    assert!(matches!(derive_layout(&RecordDecl::Other), Err(LayoutError::NotFlatRecord)));
}

#[test]
fn location_literals() {
    assert_eq!(parse_location("0"), Some(0));
    assert_eq!(parse_location("42"), Some(42));
    assert_eq!(parse_location("007"), Some(7));
    assert_eq!(parse_location(""), None);
    assert_eq!(parse_location(" 1"), None);
    assert_eq!(parse_location("1.0"), None);
    assert_eq!(parse_location("99999999999999999999999"), None);
    assert_eq!(parse_location(&usize::MAX.to_string()), Some(usize::MAX));
}

#[test]
fn field_types_describe_themselves() {
    let p = describe(VertexFieldType::Vec3F32, 16, 0, 0);
    assert_eq!((p.components, p.element, p.normalized, p.integer), (3, ElementType::Float, false, false));
    let c = describe(VertexFieldType::Rgba2101010, 16, 1, 12);
    assert_eq!(
        (c.components, c.element, c.normalized, c.integer, c.offset, c.location),
        (4, ElementType::UnsignedInt2101010Rev, true, false, 12, 1)
    );
    let b = describe(VertexFieldType::I8, 1, 2, 0);
    assert_eq!((b.components, b.element, b.normalized, b.integer), (1, ElementType::Byte, false, true));
    let n = describe(VertexFieldType::I8Normalized, 1, 3, 0);
    assert_eq!((n.components, n.element, n.normalized, n.integer), (1, ElementType::Byte, true, false));
}

#[test]
fn triangle_buffer_of_position_and_packed_color() {
    let record = RecordDecl::NamedFields(vec![
        field("pos", VertexFieldType::Vec3F32, Some("0")),
        field("color", VertexFieldType::Rgba2101010, Some("1")),
    ]);
    let layout = derive_layout(&record).unwrap();
    assert_eq!(layout.stride, 16);
    assert_eq!(layout.entries[0].offset, 0);
    assert_eq!(layout.entries[1].offset, 12);
    let colors = [
        VertRGBA::from_channels(1023, 0, 0, 3),
        VertRGBA::from_channels(0, 1023, 0, 3),
        VertRGBA::from_channels(0, 0, 1023, 3),
    ];
    assert_eq!(colors[0].inner, 0xC000_03FF);
    assert_eq!(colors[1].inner, 0xC00F_FC00);
    assert_eq!(colors[2].inner, 0xFFF0_0000);
    assert_eq!(static_draw_byte_len(colors.len(), layout.stride), Some(48));
}

#[test]
fn upload_size_limits() {
    assert_eq!(static_draw_byte_len(0, 16), Some(0));
    assert_eq!(static_draw_byte_len(5, 0), Some(0));
    assert_eq!(static_draw_byte_len(isize::MAX as usize, 1), Some(isize::MAX as usize));
    assert_eq!(static_draw_byte_len(isize::MAX as usize, 2), None);
    assert_eq!(static_draw_byte_len(usize::MAX, 16), None);
}

#[test]
fn triangle_record_layout() {
    let layout = triangle_vertex_layout();
    assert_eq!(layout.stride, 24);
    let offsets: Vec<(usize, usize)> = layout.entries.iter().map(|e| (e.location, e.offset)).collect();
    assert_eq!(offsets, vec![(0, 0), (1, 12)]);
    let calls = layout.attrib_pointers();
    assert_eq!(calls.len(), 2);
    assert_eq!((calls[1].location, calls[1].offset, calls[1].stride), (1, 12, 24));
    assert!(matches!(triangle_vertex_record(), RecordDecl::NamedFields(ref f) if f.len() == 2));
}
