//! Vertex and instance attribute layouts, packed in declaration order.
use vstd::prelude::*;

verus! {

/// The attribute formats used by this renderer's vertex and instance data.
#[derive(Debug, Copy, Clone, PartialEq, Eq, Structural)]
pub enum VertexFormat {
    Float32,
    Float32x2,
    Float32x3,
    Float32x4,
}

/// Size in bytes of one attribute of the format.
pub open spec fn format_size(format: VertexFormat) -> nat {
    match format {
        VertexFormat::Float32 => 4,
        VertexFormat::Float32x2 => 8,
        VertexFormat::Float32x3 => 12,
        VertexFormat::Float32x4 => 16,
    }
}

impl VertexFormat {
    pub fn size(self) -> (r: u64)
        ensures
            r == format_size(self),
    {
        match self {
            VertexFormat::Float32 => 4,
            VertexFormat::Float32x2 => 8,
            VertexFormat::Float32x3 => 12,
            VertexFormat::Float32x4 => 16,
        }
    }
}

/// Whether a buffer advances per vertex or per instance.
#[derive(Debug, Copy, Clone, PartialEq, Eq, Structural)]
pub enum VertexStepMode {
    Vertex,
    Instance,
}

#[derive(Debug, Copy, Clone, PartialEq, Eq, Structural)]
pub struct VertexAttribute {
    pub format: VertexFormat,
    pub offset: u64,
    pub shader_location: u32,
}

/// How one vertex buffer is read by a pipeline.
pub struct VertexBufferLayout {
    pub array_stride: u64,
    pub step_mode: VertexStepMode,
    pub attributes: Vec<VertexAttribute>,
}

/// Total size of attributes of the given formats laid out back to back.
pub open spec fn packed_size(formats: Seq<VertexFormat>) -> nat
    decreases formats.len(),
{
    if formats.len() == 0 {
        0
    } else {
        packed_size(formats.drop_last()) + format_size(formats.last())
    }
}

/// The formats of a list of (shader location, format) entries.
pub open spec fn formats_of(entries: Seq<(u32, VertexFormat)>) -> Seq<VertexFormat> {
    entries.map_values(|e: (u32, VertexFormat)| e.1)
}

/// The `i`-th attribute of `entries` packed back to back: it starts where the
/// attributes before it end.
pub open spec fn packed_attribute(entries: Seq<(u32, VertexFormat)>, i: int) -> VertexAttribute {
    VertexAttribute {
        format: entries[i].1,
        offset: packed_size(formats_of(entries.take(i))) as u64,
        shader_location: entries[i].0,
    }
}

proof fn lemma_packed_size_bound(formats: Seq<VertexFormat>)
    ensures
        packed_size(formats) <= 16 * formats.len(),
    decreases formats.len(),
{
    if formats.len() > 0 {
        lemma_packed_size_bound(formats.drop_last());
    }
}

proof fn lemma_packed_size_step(entries: Seq<(u32, VertexFormat)>, i: int)
    requires
        0 <= i < entries.len(),
    ensures
        packed_size(formats_of(entries.take(i + 1))) == packed_size(formats_of(entries.take(i)))
            + format_size(entries[i].1),
{
    assert(formats_of(entries.take(i + 1)).drop_last() =~= formats_of(entries.take(i)));
}

/// Attributes for `entries`, each at the offset where the previous one ends.
pub fn vertex_attr_array(entries: &[(u32, VertexFormat)]) -> (r: Vec<VertexAttribute>)
    requires
        entries@.len() <= u32::MAX,
    ensures
        r@.len() == entries@.len(),
        forall|i: int| 0 <= i < entries@.len() ==> r@[i] == packed_attribute(entries@, i),
{
    let mut r: Vec<VertexAttribute> = Vec::new();
    let mut offset: u64 = 0;
    let mut i: usize = 0;
    while i < entries.len()
        invariant
            entries@.len() <= u32::MAX,
            i <= entries@.len(),
            r@.len() == i,
            offset == packed_size(formats_of(entries@.take(i as int))),
            forall|j: int| 0 <= j < i ==> r@[j] == packed_attribute(entries@, j),
        decreases entries@.len() - i,
    {
        proof {
            lemma_packed_size_step(entries@, i as int);
            lemma_packed_size_bound(formats_of(entries@.take(i as int + 1)));
        }
        let (location, format) = entries[i];
        r.push(VertexAttribute { format, offset, shader_location: location });
        offset = offset + format.size();
        i = i + 1;
    }
    r
}

/// A layout whose stride is the packed size of its attributes.
pub fn packed_layout(step_mode: VertexStepMode, entries: &[(u32, VertexFormat)]) -> (r:
    VertexBufferLayout)
    requires
        entries@.len() <= u32::MAX,
    ensures
        r.array_stride == packed_size(formats_of(entries@)),
        r.step_mode == step_mode,
        r.attributes@.len() == entries@.len(),
        forall|i: int| 0 <= i < entries@.len() ==> r.attributes@[i] == packed_attribute(entries@, i),
{
    let attributes = vertex_attr_array(entries);
    let n = entries.len();
    let mut stride: u64 = 0;
    if n > 0 {
        let last = attributes[n - 1];
        proof {
            lemma_packed_size_step(entries@, n - 1);
            lemma_packed_size_bound(formats_of(entries@));
            assert(entries@.take(n as int) =~= entries@);
        }
        stride = last.offset + last.format.size();
    }
    proof {
        assert(formats_of(entries@) =~= formats_of(entries@.take(n as int)));
    }
    VertexBufferLayout { array_stride: stride, step_mode, attributes }
}

/// Every packed offset of `entries`, from the sizes of the entries before it.
proof fn lemma_packed_offsets(entries: Seq<(u32, VertexFormat)>)
    ensures
        packed_size(formats_of(entries.take(0))) == 0,
        forall|i: int|
            0 < i <= entries.len() ==> #[trigger] packed_size(formats_of(entries.take(i)))
                == packed_size(formats_of(entries.take(i - 1))) + format_size(entries[i - 1].1),
{
    assert(formats_of(entries.take(0)) =~= Seq::<VertexFormat>::empty());
    assert forall|i: int| 0 < i <= entries.len() implies #[trigger] packed_size(
        formats_of(entries.take(i)),
    ) == packed_size(formats_of(entries.take(i - 1))) + format_size(entries[i - 1].1) by {
        lemma_packed_size_step(entries, i - 1);
    }
}

/// Layout of a vertex with position, color and normal, three `f32` each, at
/// shader locations 0 to 2.
pub fn pcn_vertex_layout() -> (r: VertexBufferLayout)
    ensures
        r.array_stride == 36,
        r.step_mode == VertexStepMode::Vertex,
        r.attributes@ == seq![
            VertexAttribute { format: VertexFormat::Float32x3, offset: 0, shader_location: 0 },
            VertexAttribute { format: VertexFormat::Float32x3, offset: 12, shader_location: 1 },
            VertexAttribute { format: VertexFormat::Float32x3, offset: 24, shader_location: 2 },
        ],
{
    let entries = vec![
        (0u32, VertexFormat::Float32x3),
        (1u32, VertexFormat::Float32x3),
        (2u32, VertexFormat::Float32x3),
    ];
    let r = packed_layout(VertexStepMode::Vertex, entries.as_slice());
    proof {
        lemma_packed_offsets(entries@);
        assert(entries@.take(3) =~= entries@);
        assert(packed_size(formats_of(entries@.take(1))) == 12);
        assert(packed_size(formats_of(entries@.take(2))) == 24);
        assert(packed_size(formats_of(entries@.take(3))) == 36);
        assert(r.attributes@[0] == packed_attribute(entries@, 0));
        assert(r.attributes@[1] == packed_attribute(entries@, 1));
        assert(r.attributes@[2] == packed_attribute(entries@, 2));
        assert(r.attributes@ =~= seq![
            VertexAttribute { format: VertexFormat::Float32x3, offset: 0, shader_location: 0 },
            VertexAttribute { format: VertexFormat::Float32x3, offset: 12, shader_location: 1 },
            VertexAttribute { format: VertexFormat::Float32x3, offset: 24, shader_location: 2 },
        ]);
    }
    r
}

/// Layout of a per-instance record: a 4x4 model matrix as four columns at
/// locations 5 to 8, then a 3x3 rotation matrix as three columns at 9 to 11.
pub fn model_instance_layout() -> (r: VertexBufferLayout)
    ensures
        r.array_stride == 100,
        r.step_mode == VertexStepMode::Instance,
        r.attributes@ == seq![
            VertexAttribute { format: VertexFormat::Float32x4, offset: 0, shader_location: 5 },
            VertexAttribute { format: VertexFormat::Float32x4, offset: 16, shader_location: 6 },
            VertexAttribute { format: VertexFormat::Float32x4, offset: 32, shader_location: 7 },
            VertexAttribute { format: VertexFormat::Float32x4, offset: 48, shader_location: 8 },
            VertexAttribute { format: VertexFormat::Float32x3, offset: 64, shader_location: 9 },
            VertexAttribute { format: VertexFormat::Float32x3, offset: 76, shader_location: 10 },
            VertexAttribute { format: VertexFormat::Float32x3, offset: 88, shader_location: 11 },
        ],
{
    let entries = vec![
        (5u32, VertexFormat::Float32x4),
        (6u32, VertexFormat::Float32x4),
        (7u32, VertexFormat::Float32x4),
        (8u32, VertexFormat::Float32x4),
        (9u32, VertexFormat::Float32x3),
        (10u32, VertexFormat::Float32x3),
        (11u32, VertexFormat::Float32x3),
    ];
    let r = packed_layout(VertexStepMode::Instance, entries.as_slice());
    proof {
        lemma_packed_offsets(entries@);
        assert(entries@.take(7) =~= entries@);
        assert(packed_size(formats_of(entries@.take(1))) == 16);
        assert(packed_size(formats_of(entries@.take(2))) == 32);
        assert(packed_size(formats_of(entries@.take(3))) == 48);
        assert(packed_size(formats_of(entries@.take(4))) == 64);
        assert(packed_size(formats_of(entries@.take(5))) == 76);
        assert(packed_size(formats_of(entries@.take(6))) == 88);
        assert(packed_size(formats_of(entries@.take(7))) == 100);
        assert(r.attributes@[0] == packed_attribute(entries@, 0));
        assert(r.attributes@[1] == packed_attribute(entries@, 1));
        assert(r.attributes@[2] == packed_attribute(entries@, 2));
        assert(r.attributes@[3] == packed_attribute(entries@, 3));
        assert(r.attributes@[4] == packed_attribute(entries@, 4));
        assert(r.attributes@[5] == packed_attribute(entries@, 5));
        assert(r.attributes@[6] == packed_attribute(entries@, 6));
        assert(r.attributes@ =~= seq![
            VertexAttribute { format: VertexFormat::Float32x4, offset: 0, shader_location: 5 },
            VertexAttribute { format: VertexFormat::Float32x4, offset: 16, shader_location: 6 },
            VertexAttribute { format: VertexFormat::Float32x4, offset: 32, shader_location: 7 },
            VertexAttribute { format: VertexFormat::Float32x4, offset: 48, shader_location: 8 },
            VertexAttribute { format: VertexFormat::Float32x3, offset: 64, shader_location: 9 },
            VertexAttribute { format: VertexFormat::Float32x3, offset: 76, shader_location: 10 },
            VertexAttribute { format: VertexFormat::Float32x3, offset: 88, shader_location: 11 },
        ]);
    }
    r
}

} // verus!
