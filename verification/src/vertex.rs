//! Vertex buffer layouts.
//!
//! A mesh vertex is a packed record of floating-point fields; the GPU is
//! told where each field sits through a layout descriptor of byte stride
//! and per-attribute byte offsets. A wrong offset silently corrupts the
//! geometry, so the descriptor is computed here, with the offsets proved
//! to be the prefix sums of the field sizes. The shell converts this
//! descriptor into its graphics library's own layout type and keeps the
//! field order of its vertex record identical.

use vstd::prelude::*;

verus! {

/// The numeric formats the mesh vertex record uses.
#[derive(Clone, Copy, PartialEq, Eq, Structural, Debug)]
pub enum VertexFormat {
    /// Two 32-bit floats, 8 bytes.
    Float32x2,
    /// Three 32-bit floats, 12 bytes.
    Float32x3,
}

impl VertexFormat {
    /// Size in bytes of one attribute of this format.
    pub open spec fn spec_size_bytes(self) -> u64 {
        match self {
            VertexFormat::Float32x2 => 8,
            VertexFormat::Float32x3 => 12,
        }
    }

    #[verifier::when_used_as_spec(spec_size_bytes)]
    pub fn size_bytes(self) -> (size: u64)
        ensures
            size == self.spec_size_bytes(),
    {
        match self {
            VertexFormat::Float32x2 => 8,
            VertexFormat::Float32x3 => 12,
        }
    }
}

/// One field of the vertex record: its format, its byte offset inside
/// the record, and the shader input location it binds to.
#[derive(Clone, Copy, PartialEq, Eq, Structural, Debug)]
pub struct VertexAttribute {
    pub format: VertexFormat,
    pub offset: u64,
    pub shader_location: u32,
}

/// Whether the buffer is stepped per vertex or per instance.
#[derive(Clone, Copy, PartialEq, Eq, Structural, Debug)]
pub enum VertexStepMode {
    Vertex,
    Instance,
}

/// A vertex buffer's layout: the record stride and its attributes.
#[derive(Clone, PartialEq, Eq, Debug)]
pub struct VertexBufferLayout {
    pub array_stride: u64,
    pub step_mode: VertexStepMode,
    pub attributes: Vec<VertexAttribute>,
}

/// Total size in bytes of a packed record made of `formats`.
pub open spec fn total_size(formats: Seq<VertexFormat>) -> int
    decreases formats.len(),
{
    if formats.len() == 0 {
        0
    } else {
        total_size(formats.drop_last()) + formats.last().spec_size_bytes()
    }
}

proof fn lemma_total_size_nonneg(formats: Seq<VertexFormat>)
    ensures
        total_size(formats) >= 0,
    decreases formats.len(),
{
    if formats.len() > 0 {
        lemma_total_size_nonneg(formats.drop_last());
    }
}

proof fn lemma_total_size_take_succ(formats: Seq<VertexFormat>, i: int)
    requires
        0 <= i < formats.len(),
    ensures
        total_size(formats.take(i + 1)) == total_size(formats.take(i))
            + formats[i].spec_size_bytes(),
{
    assert(formats.take(i + 1).drop_last() =~= formats.take(i));
    assert(formats.take(i + 1).last() == formats[i]);
}

proof fn lemma_total_size_take_le(formats: Seq<VertexFormat>, i: int)
    requires
        0 <= i <= formats.len(),
    ensures
        total_size(formats.take(i)) <= total_size(formats),
    decreases formats.len() - i,
{
    if i == formats.len() {
        assert(formats.take(i) =~= formats);
    } else {
        lemma_total_size_take_succ(formats, i);
        lemma_total_size_take_le(formats, i + 1);
    }
}

/// Lay the given fields out back to back, in order: attribute `i` gets
/// shader location `i` and sits at the sum of the sizes of the fields
/// before it; the stride is the total size. This is exactly the packed
/// in-memory layout of a record with those fields, so a buffer filled
/// with such records is read back field for field.
pub fn packed_layout(formats: &Vec<VertexFormat>) -> (layout: VertexBufferLayout)
    requires
        total_size(formats@) <= u64::MAX,
        formats@.len() <= u32::MAX,
    ensures
        layout.step_mode == VertexStepMode::Vertex,
        layout.array_stride == total_size(formats@),
        layout.attributes@.len() == formats@.len(),
        forall|i: int| 0 <= i < formats@.len()
            ==> layout.attributes@[i] == (VertexAttribute {
                format: formats@[i],
                offset: total_size(formats@.take(i)) as u64,
                shader_location: i as u32,
            }),
{
    let mut attributes: Vec<VertexAttribute> = Vec::new();
    let mut offset: u64 = 0;
    let mut i: usize = 0;
    proof {
        assert(formats@.take(0) =~= Seq::<VertexFormat>::empty());
    }
    while i < formats.len()
        invariant
            0 <= i <= formats@.len(),
            formats@.len() <= u32::MAX,
            total_size(formats@) <= u64::MAX,
            offset == total_size(formats@.take(i as int)),
            attributes@.len() == i,
            forall|j: int| 0 <= j < i
                ==> attributes@[j] == (VertexAttribute {
                    format: formats@[j],
                    offset: total_size(formats@.take(j)) as u64,
                    shader_location: j as u32,
                }),
        decreases formats@.len() - i,
    {
        let format = formats[i];
        proof {
            lemma_total_size_take_succ(formats@, i as int);
            lemma_total_size_take_le(formats@, i as int + 1);
            lemma_total_size_nonneg(formats@.take(i as int));
        }
        attributes.push(VertexAttribute { format, offset, shader_location: i as u32 });
        offset = offset + format.size_bytes();
        i = i + 1;
    }
    proof {
        assert(formats@.take(formats@.len() as int) =~= formats@);
    }
    VertexBufferLayout { array_stride: offset, step_mode: VertexStepMode::Vertex, attributes }
}

/// The layout of the mesh vertex record: a position (three 32-bit
/// floats), texture coordinates (two), and a normal (three), packed in
/// that order. The offsets come out as 0, 12 and 20, with stride 32.
pub fn model_vertex_layout() -> (layout: VertexBufferLayout)
    ensures
        layout.step_mode == VertexStepMode::Vertex,
        layout.array_stride == 32,
        layout.attributes@ =~= seq![
            (VertexAttribute { format: VertexFormat::Float32x3, offset: 0, shader_location: 0 }),
            (VertexAttribute { format: VertexFormat::Float32x2, offset: 12, shader_location: 1 }),
            (VertexAttribute { format: VertexFormat::Float32x3, offset: 20, shader_location: 2 }),
        ],
{
    let mut formats: Vec<VertexFormat> = Vec::new();
    formats.push(VertexFormat::Float32x3);
    formats.push(VertexFormat::Float32x2);
    formats.push(VertexFormat::Float32x3);
    proof {
        let fs = formats@;
        assert(fs.take(0) =~= Seq::<VertexFormat>::empty());
        lemma_total_size_take_succ(fs, 0);
        lemma_total_size_take_succ(fs, 1);
        lemma_total_size_take_succ(fs, 2);
        assert(fs.take(3) =~= fs);
        assert(total_size(fs) == 32);
    }
    packed_layout(&formats)
}

} // verus!
