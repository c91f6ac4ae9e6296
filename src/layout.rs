//! Vertex layout derivation: from a vertex record's ordered field
//! declarations to the offsets, stride and attribute registrations the
//! driver needs.

use vstd::prelude::*;
use vstd::string::*;
use crate::attrib::{AttribPointer, VertexFieldType, describe, spec_describe};

verus! {

/// One field of a vertex record, in declaration order.
#[derive(Debug)]
pub struct FieldDecl {
    pub name: String,
    pub field_type: VertexFieldType,
    /// The text of the field's location tag, if it has one.
    pub location: Option<String>,
}

/// The shape of a record type offered for layout derivation.
#[derive(Debug)]
pub enum RecordDecl {
    /// A plain aggregate of named fields.
    NamedFields(Vec<FieldDecl>),
    /// Anything else (an enum, a tuple struct, a unit struct).
    Other,
}

/// Why a record's layout cannot be derived.
#[derive(Debug)]
pub enum LayoutError {
    /// Only flat, field-based records are supported.
    NotFlatRecord,
    /// The named field carries no location tag.
    MissingLocation { field: String },
    /// The named field's location tag is not a non-negative integer literal.
    BadLocation { field: String, value: String },
}

/// One field of a derived layout.
#[derive(Clone, Copy, Debug, PartialEq, Eq, Structural)]
pub struct LayoutEntry {
    pub location: usize,
    pub field_type: VertexFieldType,
    pub offset: usize,
}

/// A derived vertex record layout: one entry per field, in declaration
/// order, and the record's stride.
#[derive(Debug)]
pub struct VertexLayout {
    pub entries: Vec<LayoutEntry>,
    pub stride: usize,
}

pub open spec fn is_digit(c: char) -> bool {
    '0' <= c && c <= '9'
}

pub open spec fn digit_value(c: char) -> nat {
    (c as nat - '0' as nat) as nat
}

/// The number a string of decimal digits denotes.
pub open spec fn digits_value(s: Seq<char>) -> nat
    decreases s.len(),
{
    if s.len() == 0 {
        0
    } else {
        digits_value(s.drop_last()) * 10 + digit_value(s.last())
    }
}

/// A location tag: a non-empty string of plain decimal digits whose value
/// fits a `usize`.
pub open spec fn is_location_literal(s: Seq<char>) -> bool {
    &&& s.len() > 0
    &&& forall|i: int| 0 <= i < s.len() ==> is_digit(#[trigger] s[i])
    &&& digits_value(s) <= usize::MAX
}

pub open spec fn field_ok(f: FieldDecl) -> bool {
    &&& f.location is Some
    &&& is_location_literal(f.location->Some_0@)
}

/// Sum of the byte sizes of the first `n` fields.
pub open spec fn sizes_sum(fields: Seq<FieldDecl>, n: int) -> nat
    decreases n,
{
    if n <= 0 {
        0
    } else {
        sizes_sum(fields, n - 1) + fields[n - 1].field_type.spec_byte_size()
    }
}

/// The entry derived for field `i`, once all fields are known to be valid.
pub open spec fn spec_entry(fields: Seq<FieldDecl>, i: int) -> LayoutEntry {
    LayoutEntry {
        location: digits_value(fields[i].location->Some_0@) as usize,
        field_type: fields[i].field_type,
        offset: sizes_sum(fields, i) as usize,
    }
}

proof fn lemma_digits_value_grows(s: Seq<char>, n: int)
    requires
        0 <= n <= s.len(),
    ensures
        digits_value(s.subrange(0, n)) <= digits_value(s),
    decreases s.len() - n,
{
    if n < s.len() {
        lemma_digits_value_grows(s, n + 1);
        assert(s.subrange(0, n + 1).drop_last() =~= s.subrange(0, n));
    } else {
        assert(s.subrange(0, n) =~= s);
    }
}

/// Reads a location tag: `Some` of its value exactly when it is a decimal
/// literal whose value fits a `usize`. Only plain decimal digits are
/// accepted: no sign, underscores, radix prefix or type suffix.
pub fn parse_location(s: &str) -> (r: Option<usize>)
    ensures
        r is Some <==> is_location_literal(s@),
        r is Some ==> r->Some_0 == digits_value(s@),
{
    let n = s.unicode_len();
    if n == 0 {
        return None;
    }
    let mut value: usize = 0;
    let mut i: usize = 0;
    while i < n
        invariant
            n == s@.len(),
            i <= n,
            forall|j: int| 0 <= j < i ==> is_digit(#[trigger] s@[j]),
            value == digits_value(s@.subrange(0, i as int)),
        decreases n - i,
    {
        let c = s.get_char(i);
        assert(s@.subrange(0, i + 1).drop_last() =~= s@.subrange(0, i as int));
        if !('0' <= c && c <= '9') {
            return None;
        }
        let d = (c as u32 - '0' as u32) as usize;
        if value > (usize::MAX - d) / 10 {
            proof {
                lemma_digits_value_grows(s@, i + 1);
            }
            return None;
        }
        value = value * 10 + d;
        i = i + 1;
    }
    assert(s@.subrange(0, n as int) =~= s@);
    Some(value)
}

pub open spec fn is_first_invalid(fields: Seq<FieldDecl>, i: int) -> bool {
    &&& 0 <= i < fields.len()
    &&& !field_ok(fields[i])
    &&& forall|j: int| 0 <= j < i ==> field_ok(#[trigger] fields[j])
}

/// `e` is the error that names field `f`: missing tag, or malformed tag
/// together with its text.
pub open spec fn names_field(e: LayoutError, f: FieldDecl) -> bool {
    match f.location {
        None => e matches LayoutError::MissingLocation { field } && field@ == f.name@,
        Some(v) => e matches LayoutError::BadLocation { field, value } && field@ == f.name@
            && value@ == v@,
    }
}

/// What deriving the layout of `fields` yields: a layout exactly when
/// every field has a usable location tag, and otherwise the error that
/// names the first field without one.
pub open spec fn layout_outcome(fields: Seq<FieldDecl>, r: Result<VertexLayout, LayoutError>) -> bool {
    &&& r is Ok <==> forall|i: int| 0 <= i < fields.len() ==> field_ok(#[trigger] fields[i])
    &&& r is Ok ==> r->Ok_0.derived_from(fields)
    &&& forall|i: int| #[trigger] is_first_invalid(fields, i) ==> r is Err && names_field(r->Err_0, fields[i])
}

/// The record's total size fits a `usize`.
pub open spec fn record_fits(record: RecordDecl) -> bool {
    match record {
        RecordDecl::NamedFields(fs) => sizes_sum(fs@, fs@.len() as int) <= usize::MAX,
        RecordDecl::Other => true,
    }
}

impl VertexLayout {
    /// The layout is the one derived from `fields`: entry `i` carries field
    /// `i`'s type and declared location at the running offset, and the
    /// stride is the sum of all field sizes.
    pub open spec fn derived_from(self, fields: Seq<FieldDecl>) -> bool {
        &&& self.entries@.len() == fields.len()
        &&& forall|i: int| 0 <= i < fields.len() ==> #[trigger] self.entries@[i] == spec_entry(fields, i)
        &&& self.stride == sizes_sum(fields, fields.len() as int)
    }

    /// The attribute registrations for this layout, one per entry, in order.
    pub fn attrib_pointers(&self) -> (r: Vec<AttribPointer>)
        ensures
            r@.len() == self.entries@.len(),
            forall|i: int| 0 <= i < r@.len() ==> #[trigger] r@[i] == spec_describe(
                self.entries@[i].field_type,
                self.stride,
                self.entries@[i].location,
                self.entries@[i].offset,
            ),
    {
        let mut r: Vec<AttribPointer> = Vec::new();
        let mut i: usize = 0;
        while i < self.entries.len()
            invariant
                i <= self.entries@.len(),
                r@.len() == i,
                forall|j: int| 0 <= j < i ==> #[trigger] r@[j] == spec_describe(
                    self.entries@[j].field_type,
                    self.stride,
                    self.entries@[j].location,
                    self.entries@[j].offset,
                ),
            decreases self.entries@.len() - i,
        {
            let e = self.entries[i];
            r.push(describe(e.field_type, self.stride, e.location, e.offset));
            i = i + 1;
        }
        r
    }
}

proof fn lemma_first_invalid_unique(fields: Seq<FieldDecl>, i: int)
    requires
        is_first_invalid(fields, i),
    ensures
        forall|k: int| #[trigger] is_first_invalid(fields, k) ==> k == i,
{
    assert forall|k: int| #[trigger] is_first_invalid(fields, k) implies k == i by {
        if k > i {
            assert(field_ok(fields[i]));
        } else if k < i {
            assert(field_ok(fields[k]));
        }
    }
}

proof fn lemma_sizes_sum_monotone(fields: Seq<FieldDecl>, i: int, n: int)
    requires
        0 <= i <= n,
    ensures
        sizes_sum(fields, i) <= sizes_sum(fields, n),
    decreases n - i,
{
    if i < n {
        lemma_sizes_sum_monotone(fields, i, n - 1);
    }
}

proof fn lemma_sizes_sum_strict(fields: Seq<FieldDecl>, i: int, j: int)
    requires
        0 <= i < j <= fields.len(),
    ensures
        sizes_sum(fields, i) < sizes_sum(fields, j),
    decreases j - i,
{
    if i + 1 < j {
        lemma_sizes_sum_strict(fields, i, j - 1);
    }
}

/// In a derived layout the first field sits at offset zero, each later
/// field starts where the one before it ends, offsets strictly increase,
/// and the stride is the sum of all field sizes.
pub proof fn lemma_offsets_are_running_sums(fields: Seq<FieldDecl>, layout: VertexLayout)
    requires
        layout.derived_from(fields),
        sizes_sum(fields, fields.len() as int) <= usize::MAX,
    ensures
        fields.len() > 0 ==> layout.entries@[0].offset == 0,
        forall|i: int|
            0 < i < fields.len() ==> #[trigger] layout.entries@[i].offset == layout.entries@[i
                - 1].offset + fields[i - 1].field_type.spec_byte_size(),
        forall|i: int, j: int|
            0 <= i < j < fields.len() ==> #[trigger] layout.entries@[i].offset
                < #[trigger] layout.entries@[j].offset,
        layout.stride == sizes_sum(fields, fields.len() as int),
{
    assert forall|i: int, j: int| 0 <= i < j < fields.len() implies #[trigger] layout.entries@[i].offset
        < #[trigger] layout.entries@[j].offset by {
        lemma_sizes_sum_monotone(fields, j, fields.len() as int);
        lemma_sizes_sum_strict(fields, i, j);
        assert(layout.entries@[i] == spec_entry(fields, i));
        assert(layout.entries@[j] == spec_entry(fields, j));
    }
    assert forall|i: int| 0 < i < fields.len() implies #[trigger] layout.entries@[i].offset
        == layout.entries@[i - 1].offset + fields[i - 1].field_type.spec_byte_size() by {
        lemma_sizes_sum_monotone(fields, i, fields.len() as int);
        assert(layout.entries@[i] == spec_entry(fields, i));
        assert(layout.entries@[i - 1] == spec_entry(fields, i - 1));
    }
}

/// A field without a location tag makes derivation fail; when every field
/// before it is valid, the error names it.
pub proof fn lemma_missing_tag_fails(
    fields: Seq<FieldDecl>,
    r: Result<VertexLayout, LayoutError>,
    k: int,
)
    requires
        layout_outcome(fields, r),
        0 <= k < fields.len(),
        fields[k].location is None,
    ensures
        r is Err,
        (forall|j: int| 0 <= j < k ==> field_ok(#[trigger] fields[j])) ==> (r->Err_0 matches LayoutError::MissingLocation { field } && field@ == fields[k].name@),
{
    assert(!field_ok(fields[k]));
    if forall|j: int| 0 <= j < k ==> field_ok(#[trigger] fields[j]) {
        assert(is_first_invalid(fields, k));
    }
}

/// A field whose tag is not a location literal makes derivation fail; when
/// every field before it is valid, the error names it and the tag's text.
pub proof fn lemma_bad_tag_fails(fields: Seq<FieldDecl>, r: Result<VertexLayout, LayoutError>, k: int)
    requires
        layout_outcome(fields, r),
        0 <= k < fields.len(),
        fields[k].location is Some,
        !is_location_literal(fields[k].location->Some_0@),
    ensures
        r is Err,
        (forall|j: int| 0 <= j < k ==> field_ok(#[trigger] fields[j])) ==> (r->Err_0 matches LayoutError::BadLocation { field, value } && field@ == fields[k].name@
            && value@ == fields[k].location->Some_0@),
{
    assert(!field_ok(fields[k]));
    if forall|j: int| 0 <= j < k ==> field_ok(#[trigger] fields[j]) {
        assert(is_first_invalid(fields, k));
    }
}

/// Derives the layout of a vertex record from its field declarations.
/// Fields are laid out in declaration order with no padding; the first
/// field that lacks a usable location tag is reported.
pub fn derive_layout(record: &RecordDecl) -> (r: Result<VertexLayout, LayoutError>)
    requires
        record_fits(*record),
    ensures
        *record is Other ==> r matches Err(LayoutError::NotFlatRecord),
        *record is NamedFields ==> layout_outcome(record->NamedFields_0@, r),
{
    let fields = match record {
        RecordDecl::NamedFields(fs) => fs,
        RecordDecl::Other => {
            return Err(LayoutError::NotFlatRecord);
        },
    };
    let ghost fs = fields@;
    let mut entries: Vec<LayoutEntry> = Vec::new();
    let mut offset: usize = 0;
    let mut i: usize = 0;
    while i < fields.len()
        invariant
            fs == fields@,
            *record == RecordDecl::NamedFields(*fields),
            sizes_sum(fs, fs.len() as int) <= usize::MAX,
            i <= fs.len(),
            offset == sizes_sum(fs, i as int),
            entries@.len() == i,
            forall|j: int| 0 <= j < i ==> field_ok(#[trigger] fs[j]),
            forall|j: int| 0 <= j < i ==> #[trigger] entries@[j] == spec_entry(fs, j),
        decreases fs.len() - i,
    {
        let f = &fields[i];
        let location = match &f.location {
            None => {
                assert(is_first_invalid(fs, i as int));
                proof {
                    lemma_first_invalid_unique(fs, i as int);
                }
                let e = LayoutError::MissingLocation { field: f.name.clone() };
                assert(names_field(e, fs[i as int]));
                return Err(e);
            },
            Some(text) => match parse_location(text.as_str()) {
                Some(v) => v,
                None => {
                    assert(is_first_invalid(fs, i as int));
                    proof {
                        lemma_first_invalid_unique(fs, i as int);
                    }
                    let e = LayoutError::BadLocation { field: f.name.clone(), value: text.clone() };
                    assert(names_field(e, fs[i as int]));
                    return Err(e);
                },
            },
        };
        proof {
            lemma_sizes_sum_monotone(fs, i + 1, fs.len() as int);
        }
        entries.push(LayoutEntry { location, field_type: f.field_type, offset });
        offset = offset + f.field_type.byte_size();
        i = i + 1;
    }
    let layout = VertexLayout { entries, stride: offset };
    assert forall|k: int| #[trigger] is_first_invalid(fs, k) implies false by {
        assert(field_ok(fs[k]));
    }
    Ok(layout)
}

/// The attribute registrations for a vertex record: what the derived
/// layout asks of the driver, field by field.
pub fn vertex_attrib_pointers(record: &RecordDecl) -> (r: Result<Vec<AttribPointer>, LayoutError>)
    requires
        record_fits(*record),
    ensures
        match *record {
            RecordDecl::Other => r matches Err(LayoutError::NotFlatRecord),
            RecordDecl::NamedFields(fs) => {
                &&& r is Ok <==> forall|i: int| 0 <= i < fs@.len() ==> field_ok(#[trigger] fs@[i])
                &&& r is Ok ==> {
                    &&& r->Ok_0@.len() == fs@.len()
                    &&& forall|i: int| 0 <= i < fs@.len() ==> #[trigger] r->Ok_0@[i] == spec_describe(
                        fs@[i].field_type,
                        sizes_sum(fs@, fs@.len() as int) as usize,
                        digits_value(fs@[i].location->Some_0@) as usize,
                        sizes_sum(fs@, i) as usize,
                    )
                }
                &&& forall|i: int| #[trigger] is_first_invalid(fs@, i) ==> r is Err && names_field(r->Err_0, fs@[i])
            },
        },
{
    match derive_layout(record) {
        Ok(layout) => {
            let r = layout.attrib_pointers();
            Ok(r)
        },
        Err(e) => Err(e),
    }
}

fn triangle_field(name: &str, location: &str) -> (r: FieldDecl)
    ensures
        r.name@ == name@,
        r.field_type == VertexFieldType::Vec3F32,
        r.location is Some,
        r.location->Some_0@ == location@,
{
    FieldDecl {
        name: String::from_str(name),
        field_type: VertexFieldType::Vec3F32,
        location: Some(String::from_str(location)),
    }
}

/// The triangle's vertex record: a position at location 0, then a color at
/// location 1, each three floats.
pub fn triangle_vertex_record() -> (r: RecordDecl)
    ensures
        r is NamedFields,
        r->NamedFields_0@.len() == 2,
        r->NamedFields_0@[0].name@ == "pos"@,
        r->NamedFields_0@[1].name@ == "color"@,
        record_fits(r),
        forall|i: int| 0 <= i < 2 ==> field_ok(#[trigger] r->NamedFields_0@[i]),
        forall|i: int| 0 <= i < 2 ==> (#[trigger] r->NamedFields_0@[i]).field_type == VertexFieldType::Vec3F32,
        digits_value(r->NamedFields_0@[0].location->Some_0@) == 0,
        digits_value(r->NamedFields_0@[1].location->Some_0@) == 1,
{
    proof {
        reveal_strlit("0");
        reveal_strlit("1");
    }
    let mut fields: Vec<FieldDecl> = Vec::new();
    fields.push(triangle_field("pos", "0"));
    fields.push(triangle_field("color", "1"));
    let ghost fs = fields@;
    assert(fs[0].location->Some_0@ =~= seq!['0']);
    assert(fs[1].location->Some_0@ =~= seq!['1']);
    assert(seq!['0'].drop_last() =~= Seq::<char>::empty());
    assert(seq!['1'].drop_last() =~= Seq::<char>::empty());
    assert(seq!['0'].last() == '0');
    assert(seq!['1'].last() == '1');
    assert(digits_value(Seq::<char>::empty()) == 0);
    assert(digits_value(seq!['0']) == 0);
    assert(digits_value(seq!['1']) == 1);
    assert(fs[0].field_type == VertexFieldType::Vec3F32);
    assert(fs[1].field_type == VertexFieldType::Vec3F32);
    assert(sizes_sum(fs, 0) == 0);
    assert(sizes_sum(fs, 1) == 12);
    assert(sizes_sum(fs, 2) == 24);
    RecordDecl::NamedFields(fields)
}

/// The triangle's derived layout: stride 24, the position at offset 0 and
/// location 0, the color at offset 12 and location 1.
pub fn triangle_vertex_layout() -> (r: VertexLayout)
    ensures
        r.stride == 24,
        r.entries@ == seq![
            LayoutEntry { location: 0, field_type: VertexFieldType::Vec3F32, offset: 0 },
            LayoutEntry { location: 1, field_type: VertexFieldType::Vec3F32, offset: 12 },
        ],
{
    let record = triangle_vertex_record();
    let ghost fs = record->NamedFields_0@;
    assert(sizes_sum(fs, 1) == 12);
    assert(sizes_sum(fs, 2) == 24);
    match derive_layout(&record) {
        Ok(layout) => {
            assert(layout.entries@[0] == spec_entry(fs, 0));
            assert(layout.entries@[1] == spec_entry(fs, 1));
            assert(layout.entries@ =~= seq![
                LayoutEntry { location: 0, field_type: VertexFieldType::Vec3F32, offset: 0 },
                LayoutEntry { location: 1, field_type: VertexFieldType::Vec3F32, offset: 12 },
            ]);
            layout
        },
        Err(_) => {
            assert(field_ok(fs[0]) && field_ok(fs[1]));
            assert(false);
            VertexLayout { entries: Vec::new(), stride: 0 }
        },
    }
}

} // verus!
