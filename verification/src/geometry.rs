//! The fixed geometry: a quad of four coloured vertices drawn as two
//! triangles, the layout that describes a vertex record to the pipeline, and
//! the byte images of the vertex and index buffers.
//!
//! Vertex components are single-precision numbers. They are carried as their
//! IEEE-754 bit patterns: nothing here computes with them, and the bit
//! pattern is exactly what the vertex buffer holds.

use vstd::prelude::*;

verus! {

/// Bit pattern of `0.0`.
pub const F32_ZERO: u32 = 0x0000_0000;

/// Bit pattern of `0.5`.
pub const F32_HALF: u32 = 0x3F00_0000;

/// Bit pattern of `-0.5`.
pub const F32_NEG_HALF: u32 = 0xBF00_0000;

/// Bit pattern of `1.0`.
pub const F32_ONE: u32 = 0x3F80_0000;

/// Number of bytes in a vertex record.
pub const VERTEX_SIZE: u64 = 24;

/// Byte offset of the colour within a vertex record.
pub const COLOR_OFFSET: u64 = 12;

/// The index list: two triangles over the four vertices of the quad.
pub const INDICES: [u16; 6] = [0, 1, 2, 3, 2, 1];

/// The format of a vertex attribute.
#[derive(Clone, Copy, PartialEq, Eq, Structural, Debug)]
pub enum VertexFormat {
    /// One single-precision number.
    Float32,
    /// Two single-precision numbers.
    Float32x2,
    /// Three single-precision numbers.
    Float32x3,
    /// Four single-precision numbers.
    Float32x4,
}

impl VertexFormat {
    /// Number of bytes an attribute of this format occupies.
    pub open spec fn byte_size(self) -> nat {
        match self {
            VertexFormat::Float32 => 4,
            VertexFormat::Float32x2 => 8,
            VertexFormat::Float32x3 => 12,
            VertexFormat::Float32x4 => 16,
        }
    }
}

/// Trusted: calls `wgpu::VertexFormat::size` on the `wgpu` format of the same
/// name, which gives four bytes for each single-precision component.
#[verifier::external_body]
fn format_size(format: VertexFormat) -> (bytes: u64)
    ensures
        bytes == format.byte_size(),
{
    let format = match format {
        VertexFormat::Float32 => wgpu::VertexFormat::Float32,
        VertexFormat::Float32x2 => wgpu::VertexFormat::Float32x2,
        VertexFormat::Float32x3 => wgpu::VertexFormat::Float32x3,
        VertexFormat::Float32x4 => wgpu::VertexFormat::Float32x4,
    };
    format.size()
}

/// The width of the indices of an index buffer.
#[derive(Clone, Copy, PartialEq, Eq, Structural, Debug)]
pub enum IndexFormat {
    /// Indices of 16 bits.
    Uint16,
    /// Indices of 32 bits.
    Uint32,
}

/// Whether a buffer advances per vertex or per instance.
#[derive(Clone, Copy, PartialEq, Eq, Structural, Debug)]
pub enum VertexStepMode {
    Vertex,
    Instance,
}

/// One input of the vertex shader.
#[derive(Clone, Copy, PartialEq, Eq, Structural, Debug)]
pub struct VertexAttribute {
    pub format: VertexFormat,
    /// Byte offset of the attribute from the start of the record.
    pub offset: u64,
    pub shader_location: u32,
}

/// How the records of a vertex buffer are laid out.
#[derive(Debug)]
pub struct VertexBufferLayout {
    /// Bytes from one record to the next.
    pub array_stride: u64,
    pub step_mode: VertexStepMode,
    pub attributes: Vec<VertexAttribute>,
}

/// Bytes taken by the first `n` attributes of a tightly packed record.
pub open spec fn packed_offset(entries: Seq<(u32, VertexFormat)>, n: int) -> nat
    decreases n,
{
    if n <= 0 {
        0
    } else {
        packed_offset(entries, n - 1) + entries[n - 1].1.byte_size()
    }
}

/// The `i`-th attribute of a tightly packed record.
pub open spec fn packed_attribute(entries: Seq<(u32, VertexFormat)>, i: int) -> VertexAttribute {
    VertexAttribute {
        format: entries[i].1,
        offset: packed_offset(entries, i) as u64,
        shader_location: entries[i].0,
    }
}

/// A prefix of a record takes no more bytes than a longer one.
proof fn lemma_packed_offset_monotonic(entries: Seq<(u32, VertexFormat)>, i: int, j: int)
    requires
        i <= j,
    ensures
        packed_offset(entries, i) <= packed_offset(entries, j),
    decreases j - i,
{
    if i < j {
        lemma_packed_offset_monotonic(entries, i, j - 1);
    }
}

impl VertexBufferLayout {
    /// A layout whose attributes follow one another without gaps, in the
    /// order given, each entry naming its shader location and format. The
    /// stride is the size of the whole record.
    pub fn packed(step_mode: VertexStepMode, entries: &Vec<(u32, VertexFormat)>) -> (layout: Self)
        requires
            packed_offset(entries@, entries@.len() as int) <= u64::MAX,
        ensures
            layout.step_mode == step_mode,
            layout.array_stride == packed_offset(entries@, entries@.len() as int),
            layout.attributes@.len() == entries@.len(),
            forall|i: int|
                0 <= i < entries@.len() ==> #[trigger] layout.attributes@[i] == packed_attribute(
                    entries@,
                    i,
                ),
    {
        let mut attributes: Vec<VertexAttribute> = Vec::new();
        let mut offset: u64 = 0;
        let mut i: usize = 0;
        while i < entries.len()
            invariant
                i <= entries@.len(),
                offset == packed_offset(entries@, i as int),
                packed_offset(entries@, entries@.len() as int) <= u64::MAX,
                attributes@.len() == i,
                forall|k: int|
                    0 <= k < i ==> #[trigger] attributes@[k] == packed_attribute(entries@, k),
            decreases entries@.len() - i,
        {
            let (location, format) = entries[i];
            attributes.push(VertexAttribute { format, offset, shader_location: location });
            proof {
                lemma_packed_offset_monotonic(entries@, i + 1, entries@.len() as int);
            }
            offset = offset + format_size(format);
            i = i + 1;
        }
        VertexBufferLayout { array_stride: offset, step_mode, attributes }
    }
}

/// A vertex record: a position followed by a colour, three single-precision
/// numbers each, held as bit patterns.
#[derive(Clone, Copy, PartialEq, Eq, Debug)]
pub struct Vertex {
    pub position: [u32; 3],
    pub color: [u32; 3],
}

impl Vertex {
    /// The `k`-th 32-bit word of the record: position first, then colour.
    pub open spec fn word(self, k: int) -> u32 {
        if k < 3 {
            self.position@[k]
        } else {
            self.color@[k - 3]
        }
    }

    /// The attributes of a vertex record: position at location 0, colour at
    /// location 1.
    pub open spec fn attribute_entries() -> Seq<(u32, VertexFormat)> {
        seq![(0u32, VertexFormat::Float32x3), (1u32, VertexFormat::Float32x3)]
    }

    /// The layout of a buffer of vertex records: one record per vertex, its
    /// attributes packed in the order of `attribute_entries`, which puts the
    /// position at the start of the record and the colour right behind it.
    pub fn desc() -> (layout: VertexBufferLayout)
        ensures
            layout.step_mode == VertexStepMode::Vertex,
            layout.array_stride == packed_offset(
                Self::attribute_entries(),
                Self::attribute_entries().len() as int,
            ),
            layout.attributes@.len() == Self::attribute_entries().len(),
            forall|i: int|
                0 <= i < Self::attribute_entries().len() ==> #[trigger] layout.attributes@[i]
                    == packed_attribute(Self::attribute_entries(), i),
            layout.array_stride == VERTEX_SIZE,
            layout.attributes@ == seq![
                VertexAttribute {
                    format: VertexFormat::Float32x3,
                    offset: 0,
                    shader_location: 0,
                },
                VertexAttribute {
                    format: VertexFormat::Float32x3,
                    offset: COLOR_OFFSET,
                    shader_location: 1,
                },
            ],
    {
        let mut entries: Vec<(u32, VertexFormat)> = Vec::new();
        entries.push((0, VertexFormat::Float32x3));
        entries.push((1, VertexFormat::Float32x3));
        proof {
            reveal_with_fuel(packed_offset, 3);
            assert(entries@ =~= Self::attribute_entries());
        }
        VertexBufferLayout::packed(VertexStepMode::Vertex, &entries)
    }
}

/// The four corners of the quad.
pub open spec fn quad() -> Seq<Vertex> {
    seq![
        Vertex { position: [F32_HALF, F32_HALF, F32_ZERO], color: [F32_ONE, F32_ZERO, F32_ZERO] },
        Vertex {
            position: [F32_NEG_HALF, F32_HALF, F32_ZERO],
            color: [F32_ZERO, F32_ZERO, F32_ONE],
        },
        Vertex {
            position: [F32_HALF, F32_NEG_HALF, F32_ZERO],
            color: [F32_ONE, F32_ZERO, F32_ZERO],
        },
        Vertex {
            position: [F32_NEG_HALF, F32_NEG_HALF, F32_ZERO],
            color: [F32_ZERO, F32_ONE, F32_ZERO],
        },
    ]
}

/// The vertex list: the four corners of the quad.
pub fn vertices() -> (list: [Vertex; 4])
    ensures
        list@ == quad(),
{
    [
        Vertex { position: [F32_HALF, F32_HALF, F32_ZERO], color: [F32_ONE, F32_ZERO, F32_ZERO] },
        Vertex {
            position: [F32_NEG_HALF, F32_HALF, F32_ZERO],
            color: [F32_ZERO, F32_ZERO, F32_ONE],
        },
        Vertex {
            position: [F32_HALF, F32_NEG_HALF, F32_ZERO],
            color: [F32_ONE, F32_ZERO, F32_ZERO],
        },
        Vertex {
            position: [F32_NEG_HALF, F32_NEG_HALF, F32_ZERO],
            color: [F32_ZERO, F32_ONE, F32_ZERO],
        },
    ]
}

/// Number of whole triangles an index list draws.
pub open spec fn triangle_count(indices: Seq<u16>) -> nat {
    indices.len() / 3
}

/// Every index names one of `vertex_count` vertices.
pub open spec fn indices_in_range(indices: Seq<u16>, vertex_count: nat) -> bool {
    forall|i: int| 0 <= i < indices.len() ==> (#[trigger] indices[i]) < vertex_count
}

/// The index list is `0, 1, 2, 3, 2, 1`: it draws exactly two triangles, with
/// no index left over, and every index names one of the four vertices of the
/// quad.
pub proof fn lemma_indices_draw_two_triangles()
    ensures
        INDICES@ == seq![0u16, 1, 2, 3, 2, 1],
        INDICES@.len() % 3 == 0,
        triangle_count(INDICES@) == 2,
        quad().len() == 4,
        indices_in_range(INDICES@, quad().len()),
{
}

/// Number of indices a draw of the fixed geometry covers.
pub fn num_indices() -> (count: u32)
    ensures
        count == INDICES@.len(),
        count == 6,
{
    INDICES.len() as u32
}

/// The order in which a machine stores the bytes of a number.
#[derive(Clone, Copy, PartialEq, Eq, Structural, Debug)]
pub enum ByteOrder {
    LittleEndian,
    BigEndian,
}

/// The byte of `value` that weighs `256^k`, for `k` from 0 to 3.
pub open spec fn byte_of(value: int, k: int) -> u8 {
    if k == 0 {
        (value % 256) as u8
    } else if k == 1 {
        (value / 256 % 256) as u8
    } else if k == 2 {
        (value / 65536 % 256) as u8
    } else {
        (value / 16777216 % 256) as u8
    }
}

/// Byte `k` of the four that store a 32-bit word.
pub open spec fn word_byte(word: u32, order: ByteOrder, k: int) -> u8 {
    match order {
        ByteOrder::LittleEndian => byte_of(word as int, k),
        ByteOrder::BigEndian => byte_of(word as int, 3 - k),
    }
}

/// Byte `k` of the two that store a 16-bit index.
pub open spec fn index_byte(index: u16, order: ByteOrder, k: int) -> u8 {
    match order {
        ByteOrder::LittleEndian => byte_of(index as int, k),
        ByteOrder::BigEndian => byte_of(index as int, 1 - k),
    }
}

/// The bytes of a list of words, each stored in four bytes in `order`.
pub open spec fn word_image(words: Seq<u32>, order: ByteOrder) -> Seq<u8> {
    Seq::new(4 * words.len(), |i: int| word_byte(words[i / 4], order, i % 4))
}

/// The bytes of a list of indices, each stored in two bytes in `order`.
pub open spec fn index_image(indices: Seq<u16>, order: ByteOrder) -> Seq<u8> {
    Seq::new(2 * indices.len(), |i: int| index_byte(indices[i / 2], order, i % 2))
}

/// The words of a list of vertex records, record after record.
pub open spec fn vertex_words(vertices: Seq<Vertex>) -> Seq<u32> {
    Seq::new(6 * vertices.len(), |i: int| vertices[i / 6].word(i % 6))
}

/// The bytes of a list of vertex records in `order`.
pub open spec fn vertex_image(vertices: Seq<Vertex>, order: ByteOrder) -> Seq<u8> {
    word_image(vertex_words(vertices), order)
}

/// Trusted: calls `bytemuck::cast_slice` from `u32` to `u8` and copies the
/// result. The bytes are the memory of the words, so each word gives four
/// bytes in the byte order of the machine, which is one of the two.
#[verifier::external_body]
fn cast_words(words: &[u32]) -> (bytes: Vec<u8>)
    ensures
        bytes@ == word_image(words@, ByteOrder::LittleEndian) || bytes@ == word_image(
            words@,
            ByteOrder::BigEndian,
        ),
{
    bytemuck::cast_slice::<u32, u8>(words).to_vec()
}

/// Trusted: calls `bytemuck::cast_slice` from `u16` to `u8` and copies the
/// result. The bytes are the memory of the indices, so each index gives two
/// bytes in the byte order of the machine, which is one of the two.
#[verifier::external_body]
fn cast_indices(indices: &[u16]) -> (bytes: Vec<u8>)
    ensures
        bytes@ == index_image(indices@, ByteOrder::LittleEndian) || bytes@ == index_image(
            indices@,
            ByteOrder::BigEndian,
        ),
{
    bytemuck::cast_slice::<u16, u8>(indices).to_vec()
}

/// The contents of a vertex buffer: the records one after another, 24 bytes
/// each, every component in the byte order of the machine.
pub fn vertex_bytes(vertices: &[Vertex]) -> (bytes: Vec<u8>)
    ensures
        bytes@ == vertex_image(vertices@, ByteOrder::LittleEndian) || bytes@ == vertex_image(
            vertices@,
            ByteOrder::BigEndian,
        ),
        bytes@.len() == VERTEX_SIZE * vertices@.len(),
{
    let mut words: Vec<u32> = Vec::new();
    let mut i: usize = 0;
    while i < vertices.len()
        invariant
            i <= vertices@.len(),
            words@.len() == 6 * i,
            forall|j: int| 0 <= j < 6 * i ==> #[trigger] words@[j] == vertices@[j / 6].word(j % 6),
        decreases vertices@.len() - i,
    {
        let vertex = vertices[i];
        words.push(vertex.position[0]);
        words.push(vertex.position[1]);
        words.push(vertex.position[2]);
        words.push(vertex.color[0]);
        words.push(vertex.color[1]);
        words.push(vertex.color[2]);
        i = i + 1;
    }
    cast_words(words.as_slice())
}

/// The contents of an index buffer: the indices one after another, two bytes
/// each, in the byte order of the machine.
pub fn index_bytes(indices: &[u16]) -> (bytes: Vec<u8>)
    ensures
        bytes@ == index_image(indices@, ByteOrder::LittleEndian) || bytes@ == index_image(
            indices@,
            ByteOrder::BigEndian,
        ),
        bytes@.len() == 2 * indices@.len(),
{
    cast_indices(indices)
}

/// What a buffer is bound as.
#[derive(Clone, Copy, PartialEq, Eq, Structural, Debug)]
pub enum BufferUsage {
    Vertex,
    Index,
}

/// A buffer to create on the device, filled once and never written again.
#[derive(Debug)]
pub struct BufferInit {
    pub usage: BufferUsage,
    pub contents: Vec<u8>,
}

/// The vertex buffer of the fixed geometry: the four records of the quad.
pub fn vertex_buffer() -> (buffer: BufferInit)
    ensures
        buffer.usage == BufferUsage::Vertex,
        buffer.contents@ == vertex_image(quad(), ByteOrder::LittleEndian) || buffer.contents@
            == vertex_image(quad(), ByteOrder::BigEndian),
        buffer.contents@.len() == VERTEX_SIZE * quad().len(),
{
    let list = vertices();
    BufferInit { usage: BufferUsage::Vertex, contents: vertex_bytes(list.as_slice()) }
}

/// The index buffer of the fixed geometry: the six indices of the two
/// triangles.
pub fn index_buffer() -> (buffer: BufferInit)
    ensures
        buffer.usage == BufferUsage::Index,
        buffer.contents@ == index_image(INDICES@, ByteOrder::LittleEndian) || buffer.contents@
            == index_image(INDICES@, ByteOrder::BigEndian),
        buffer.contents@.len() == 2 * INDICES@.len(),
{
    BufferInit { usage: BufferUsage::Index, contents: index_bytes(INDICES.as_slice()) }
}

/// In the bytes of a vertex buffer, the colour of every record starts
/// exactly 12 bytes (three four-byte numbers) after the start of the record,
/// and the position at the start; records are 24 bytes apart.
pub proof fn lemma_color_offset(vertices: Seq<Vertex>, order: ByteOrder, v: int, k: int)
    requires
        0 <= v < vertices.len(),
        0 <= k < 3,
    ensures
        VERTEX_SIZE * v + COLOR_OFFSET + 4 * k + 4 <= vertex_image(vertices, order).len(),
        forall|b: int|
            0 <= b < 4 ==> #[trigger] vertex_image(vertices, order)[VERTEX_SIZE * v + COLOR_OFFSET
                + 4 * k + b] == word_byte(vertices[v].color@[k], order, b),
        forall|b: int|
            0 <= b < 4 ==> #[trigger] vertex_image(vertices, order)[VERTEX_SIZE * v + 4 * k + b]
                == word_byte(vertices[v].position@[k], order, b),
{
}

} // verus!
