//! Vertices, their layout in a vertex buffer, and the buffer's contents.

use vstd::prelude::*;
use crate::image::{cast_words, image, is_memory_image};
use crate::single::{encodes_integer, single_from_i8, ONE};

verus! {

/// A vertex as the shader receives it: a position and one further attribute,
/// a colour or a normal, of four single-precision patterns each.
#[derive(Clone, Copy, Debug)]
pub struct Vertex {
    pub position: [u32; 4],
    pub attribute: [u32; 4],
}

/// The format of one vertex attribute.
#[derive(Clone, Copy, Debug, PartialEq, Eq, Structural)]
pub enum VertexFormat {
    /// Four single-precision components, 16 bytes.
    Float32x4,
}

/// How often the vertex buffer advances.
#[derive(Clone, Copy, Debug, PartialEq, Eq, Structural)]
pub enum VertexStepMode {
    Vertex,
    Instance,
}

/// One attribute of a vertex: where it starts within the vertex and at which
/// shader location it arrives.
#[derive(Clone, Copy, Debug, PartialEq, Eq, Structural)]
pub struct VertexAttribute {
    pub format: VertexFormat,
    pub offset: u64,
    pub shader_location: u32,
}

/// The layout of a vertex buffer.
#[derive(Clone, Copy, Debug)]
pub struct VertexBufferLayout {
    pub array_stride: u64,
    pub step_mode: VertexStepMode,
    pub attributes: [VertexAttribute; 2],
}

/// The words in one vertex.
pub const VERTEX_WORDS: usize = 8;

/// `out` is the homogeneous point with the whole-number coordinates `p`: the
/// three coordinates as single-precision patterns, then 1.0.
pub open spec fn is_point(out: [u32; 4], p: [i8; 3]) -> bool {
    &&& forall|k: int| 0 <= k < 3 ==> encodes_integer(#[trigger] out[k], p[k] as int)
    &&& out[3] == ONE
}

/// `out` is `p` with 1.0 as its fourth component.
pub open spec fn is_extended(out: [u32; 4], p: [u32; 3]) -> bool {
    out@ == p@.push(ONE)
}

/// The words of a run of vertices, eight to a vertex.
pub open spec fn vertex_words(vertices: Seq<Vertex>) -> Seq<u32> {
    Seq::new(8 * vertices.len(), |i: int| vertices[i / 8].words()[i % 8])
}

impl Vertex {
    /// The eight words of the vertex in memory order.
    pub open spec fn words(&self) -> Seq<u32> {
        self.position@ + self.attribute@
    }

    /// The vertex at `p` with the attribute `a`, each extended by 1.0.
    pub fn new(p: [u32; 3], a: [u32; 3]) -> (v: Vertex)
        ensures
            is_extended(v.position, p),
            is_extended(v.attribute, a),
    {
        let v = Vertex { position: [p[0], p[1], p[2], ONE], attribute: [a[0], a[1], a[2], ONE] };
        assert(v.position@ =~= p@.push(ONE));
        assert(v.attribute@ =~= a@.push(ONE));
        v
    }

    /// The layout of a buffer of vertices: the position at shader location 0,
    /// the attribute at location 1, one after the other with no gap, and a
    /// stride of exactly one vertex.
    pub open spec fn spec_desc() -> VertexBufferLayout {
        VertexBufferLayout {
            array_stride: 32,
            step_mode: VertexStepMode::Vertex,
            attributes: [
                VertexAttribute { format: VertexFormat::Float32x4, offset: 0, shader_location: 0 },
                VertexAttribute { format: VertexFormat::Float32x4, offset: 16, shader_location: 1 },
            ],
        }
    }

    /// The layout of a buffer of vertices.
    #[verifier::when_used_as_spec(spec_desc)]
    pub fn desc() -> (layout: VertexBufferLayout)
        ensures
            layout == Self::spec_desc(),
            layout.array_stride == 4 * VERTEX_WORDS,
    {
        VertexBufferLayout {
            array_stride: 32,
            step_mode: VertexStepMode::Vertex,
            attributes: [
                VertexAttribute { format: VertexFormat::Float32x4, offset: 0, shader_location: 0 },
                VertexAttribute { format: VertexFormat::Float32x4, offset: 16, shader_location: 1 },
            ],
        }
    }
}

/// The vertex at the whole-number position `p` with the whole-number colour
/// `c`.
pub fn vertex(p: [i8; 3], c: [i8; 3]) -> (v: Vertex)
    ensures
        is_point(v.position, p),
        is_point(v.attribute, c),
{
    Vertex {
        position: [single_from_i8(p[0]), single_from_i8(p[1]), single_from_i8(p[2]), ONE],
        attribute: [single_from_i8(c[0]), single_from_i8(c[1]), single_from_i8(c[2]), ONE],
    }
}

/// One vertex for each position in `pos`, coloured by the entry of `col` at
/// the same index.
pub fn create_vertices(pos: &Vec<[i8; 3]>, col: &Vec<[i8; 3]>) -> (data: Vec<Vertex>)
    requires
        pos.len() <= col.len(),
    ensures
        data.len() == pos.len(),
        forall|i: int|
            0 <= i < pos.len() ==> is_point(#[trigger] data[i].position, pos[i]) && is_point(
                data[i].attribute,
                col[i],
            ),
{
    let mut data: Vec<Vertex> = Vec::with_capacity(pos.len());
    let mut i: usize = 0;
    while i < pos.len()
        invariant
            i <= pos.len(),
            pos.len() <= col.len(),
            data.len() == i,
            forall|k: int|
                0 <= k < i ==> is_point(#[trigger] data[k].position, pos[k]) && is_point(
                    data[k].attribute,
                    col[k],
                ),
        decreases pos.len() - i,
    {
        data.push(vertex(pos[i], col[i]));
        i = i + 1;
    }
    data
}

/// The contents of the vertex buffer for `vertices`: their words in order, as
/// the bytes they occupy in memory, 32 bytes to a vertex.
pub fn vertex_buffer_contents(vertices: &Vec<Vertex>) -> (bytes: Vec<u8>)
    ensures
        is_memory_image(bytes@, vertex_words(vertices@)),
        bytes.len() == 32 * vertices.len(),
{
    let mut words: Vec<u32> = Vec::new();
    let mut i: usize = 0;
    while i < vertices.len()
        invariant
            i <= vertices.len(),
            words@ == vertex_words(vertices@.subrange(0, i as int)),
        decreases vertices.len() - i,
    {
        let v: Vertex = vertices[i];
        let ghost before = words@;
        words.push(v.position[0]);
        words.push(v.position[1]);
        words.push(v.position[2]);
        words.push(v.position[3]);
        words.push(v.attribute[0]);
        words.push(v.attribute[1]);
        words.push(v.attribute[2]);
        words.push(v.attribute[3]);
        proof {
            let done = vertices@.subrange(0, i as int);
            let more = vertices@.subrange(0, i + 1);
            assert(words@ =~= before + v.words());
            assert forall|k: int| 0 <= k < 8 * more.len() implies words@[k] == vertex_words(
                more,
            )[k] by {
                if k < 8 * i {
                    assert(more[k / 8] == done[k / 8]);
                    assert(words@[k] == vertex_words(done)[k]);
                } else {
                    assert(k / 8 == i as int);
                    assert(more[k / 8] == v);
                    assert(words@[k] == v.words()[k - 8 * i]);
                }
            }
            assert(words@ =~= vertex_words(more));
        }
        i = i + 1;
    }
    assert(vertices@.subrange(0, i as int) =~= vertices@);
    let source: &[u8] = cast_words(words.as_slice());
    let mut bytes: Vec<u8> = Vec::new();
    bytes.extend_from_slice(source);
    assert(bytes@ =~= source@);
    bytes
}

/// The contents of the index buffer for `indices`: the 32-bit indices in
/// order, as the bytes they occupy in memory.
pub fn index_buffer_contents(indices: &Vec<u32>) -> (bytes: Vec<u8>)
    ensures
        is_memory_image(bytes@, indices@),
        bytes.len() == 4 * indices.len(),
{
    let source: &[u8] = cast_words(indices.as_slice());
    let mut bytes: Vec<u8> = Vec::new();
    bytes.extend_from_slice(source);
    assert(bytes@ =~= source@);
    bytes
}

/// The layout says where each attribute lies in the buffer.
///
/// In the contents of a vertex buffer, whichever the byte order, the
/// attribute at shader location `k` of the vertex at index `i` occupies the
/// sixteen bytes from `i` strides plus the attribute's offset on: for
/// location 0 they are the image of the position, for location 1 that of the
/// second attribute.
pub proof fn lemma_layout_locates_attributes(vertices: Seq<Vertex>, little: bool, i: int)
    requires
        0 <= i < vertices.len(),
    ensures
        ({
            let bytes = image(vertex_words(vertices), little);
            let layout = Vertex::spec_desc();
            let first = i * layout.array_stride + layout.attributes[0].offset;
            let second = i * layout.array_stride + layout.attributes[1].offset;
            &&& bytes.len() == vertices.len() * layout.array_stride
            &&& bytes.subrange(first, first + 16) == image(vertices[i].position@, little)
            &&& bytes.subrange(second, second + 16) == image(vertices[i].attribute@, little)
        }),
{
    let bytes = image(vertex_words(vertices), little);
    let words = vertex_words(vertices);
    let v = vertices[i];
    let first = i * 32;
    let second = i * 32 + 16;
    assert forall|j: int| 0 <= j < 16 implies bytes.subrange(first, first + 16)[j] == image(
        v.position@,
        little,
    )[j] by {
        let at = first + j;
        assert(at / 4 == 8 * i + j / 4);
        assert(at % 4 == j % 4);
        assert((8 * i + j / 4) / 8 == i);
        assert((8 * i + j / 4) % 8 == j / 4);
        assert(words[at / 4] == v.words()[j / 4]);
        assert(v.words()[j / 4] == v.position@[j / 4]);
    }
    assert forall|j: int| 0 <= j < 16 implies bytes.subrange(second, second + 16)[j] == image(
        v.attribute@,
        little,
    )[j] by {
        let at = second + j;
        assert(at / 4 == 8 * i + 4 + j / 4);
        assert(at % 4 == j % 4);
        assert((8 * i + 4 + j / 4) / 8 == i);
        assert((8 * i + 4 + j / 4) % 8 == 4 + j / 4);
        assert(words[at / 4] == v.words()[4 + j / 4]);
        assert(v.words()[4 + j / 4] == v.attribute@[j / 4]);
    }
    assert(bytes.subrange(first, first + 16) =~= image(v.position@, little));
    assert(bytes.subrange(second, second + 16) =~= image(v.attribute@, little));
}

} // verus!
