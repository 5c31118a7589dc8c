//! Uniform regions: fixed-size blocks of bytes that mirror what a shader
//! expects to find in its uniform bindings.

use vstd::prelude::*;
use crate::image::{cast_words, is_memory_image};
use crate::light::Light;
use crate::matrix::Mat4;

verus! {

/// The shader stage that reads a region.
#[derive(Clone, Copy, Debug, PartialEq, Eq, Structural)]
pub enum ShaderStage {
    Vertex,
    Fragment,
}

/// The three regions of the engine.
#[derive(Clone, Copy, Debug, PartialEq, Eq, Structural)]
pub enum RegionKind {
    /// Model, view-projection and normal matrices.
    Vertex,
    /// Light position and eye position.
    Fragment,
    /// Light colours and intensities.
    Light,
}

impl RegionKind {
    /// The size of the region in bytes.
    pub open spec fn spec_size(self) -> usize {
        match self {
            RegionKind::Vertex => 192,
            RegionKind::Fragment => 32,
            RegionKind::Light => 48,
        }
    }

    /// The slot at which the region is bound.
    pub open spec fn spec_slot(self) -> u32 {
        match self {
            RegionKind::Vertex => 0,
            RegionKind::Fragment => 1,
            RegionKind::Light => 2,
        }
    }

    /// The stage that reads the region.
    pub open spec fn spec_stage(self) -> ShaderStage {
        match self {
            RegionKind::Vertex => ShaderStage::Vertex,
            RegionKind::Fragment => ShaderStage::Fragment,
            RegionKind::Light => ShaderStage::Fragment,
        }
    }

    /// The size of the region in bytes.
    #[verifier::when_used_as_spec(spec_size)]
    pub fn size(self) -> (n: usize)
        ensures
            n == self.spec_size(),
    {
        match self {
            RegionKind::Vertex => 192,
            RegionKind::Fragment => 32,
            RegionKind::Light => 48,
        }
    }

    /// The slot at which the region is bound.
    #[verifier::when_used_as_spec(spec_slot)]
    pub fn slot(self) -> (s: u32)
        ensures
            s == self.spec_slot(),
    {
        match self {
            RegionKind::Vertex => 0,
            RegionKind::Fragment => 1,
            RegionKind::Light => 2,
        }
    }

    /// The stage that reads the region.
    #[verifier::when_used_as_spec(spec_stage)]
    pub fn stage(self) -> (s: ShaderStage)
        ensures
            s == self.spec_stage(),
    {
        match self {
            RegionKind::Vertex => ShaderStage::Vertex,
            RegionKind::Fragment => ShaderStage::Fragment,
            RegionKind::Light => ShaderStage::Fragment,
        }
    }
}

/// Why a write into a region was refused.
#[derive(Clone, Copy, Debug, PartialEq, Eq, Structural)]
pub enum WriteError {
    /// The offset is not a multiple of four.
    Misaligned,
    /// The words would reach past the end of the region.
    Overrun,
}

/// A write of `count` words at byte `offset` lies inside a region of `size`
/// bytes and starts on a word boundary.
pub open spec fn accepts(size: nat, offset: int, count: nat) -> bool {
    offset % 4 == 0 && 0 <= offset && offset + 4 * count <= size
}

/// `after` is `before` with the bytes from `offset` on replaced by the memory
/// image of `words`, and nothing else touched.
pub open spec fn written(before: Seq<u8>, after: Seq<u8>, offset: int, words: Seq<u32>) -> bool {
    &&& after.len() == before.len()
    &&& 0 <= offset && offset + 4 * words.len() <= before.len()
    &&& is_memory_image(after.subrange(offset, offset + 4 * words.len()), words)
    &&& forall|i: int|
        0 <= i < before.len() && !(offset <= i < offset + 4 * words.len()) ==> after[i]
            == before[i]
}

/// A uniform region of `N` bytes: the host's copy of one uniform block.
#[derive(Clone, Copy, Debug)]
pub struct UniformRegion<const N: usize> {
    pub bytes: [u8; N],
}

impl<const N: usize> View for UniformRegion<N> {
    type V = Seq<u8>;

    /// The bytes of the region.
    open spec fn view(&self) -> Seq<u8> {
        self.bytes@
    }
}

impl<const N: usize> UniformRegion<N> {
    /// A region filled with zero bytes.
    pub fn new() -> (r: Self)
        ensures
            r@ == Seq::new(N as nat, |i: int| 0u8),
    {
        let r = UniformRegion { bytes: [0u8; N] };
        assert(r@ =~= Seq::new(N as nat, |i: int| 0u8));
        r
    }

    /// The bytes of the region.
    pub fn as_bytes(&self) -> (b: &[u8])
        ensures
            b@ == self@,
            b@.len() == N,
    {
        self.bytes.as_slice()
    }

    /// Writes `words` into the region from byte `offset` on, as the bytes they
    /// occupy in memory. A write that is misaligned or does not fit is
    /// refused and leaves the region as it was.
    pub fn write(&mut self, offset: usize, words: &[u32]) -> (r: Result<(), WriteError>)
        ensures
            match r {
                Ok(()) => {
                    &&& accepts(N as nat, offset as int, words@.len())
                    &&& written(old(self)@, final(self)@, offset as int, words@)
                },
                Err(WriteError::Misaligned) => {
                    &&& offset % 4 != 0
                    &&& final(self)@ == old(self)@
                },
                Err(WriteError::Overrun) => {
                    &&& offset % 4 == 0
                    &&& offset + 4 * words@.len() > N
                    &&& final(self)@ == old(self)@
                },
            },
    {
        if offset % 4 != 0 {
            return Err(WriteError::Misaligned);
        }
        let source: &[u8] = cast_words(words);
        let count: usize = source.len();
        if count > N || offset > N - count {
            return Err(WriteError::Overrun);
        }
        let mut i: usize = 0;
        while i < count
            invariant
                i <= count,
                count == source@.len(),
                offset + count <= N,
                forall|k: int| 0 <= k < i ==> self.bytes@[offset + k] == source@[k],
                forall|k: int|
                    0 <= k < N && !(offset <= k < offset + i)
                        ==> self.bytes@[k] == old(self).bytes@[k],
            decreases count - i,
        {
            self.bytes[offset + i] = source[i];
            i = i + 1;
        }
        assert(self.bytes@.subrange(offset as int, offset + count) =~= source@);
        Ok(())
    }
}

/// One entry of the binding layout: a uniform block of `size` bytes, bound at
/// slot `binding` and read by the stage `visibility`.
#[derive(Clone, Copy, Debug, PartialEq, Eq, Structural)]
pub struct BindingEntry {
    pub binding: u32,
    pub visibility: ShaderStage,
    pub size: u64,
}

/// The region kind that is bound at `slot`, if any.
pub open spec fn kind_at(slot: int) -> Option<RegionKind> {
    if slot == 0 {
        Some(RegionKind::Vertex)
    } else if slot == 1 {
        Some(RegionKind::Fragment)
    } else if slot == 2 {
        Some(RegionKind::Light)
    } else {
        None
    }
}

/// The layout entry of a region kind.
pub open spec fn entry_of(kind: RegionKind) -> BindingEntry {
    BindingEntry {
        binding: kind.spec_slot(),
        visibility: kind.spec_stage(),
        size: kind.spec_size() as u64,
    }
}

/// The byte offset of the model matrix in the vertex region.
pub const MODEL_OFFSET: usize = 0;

/// The byte offset of the view-projection matrix in the vertex region.
pub const VIEW_PROJECTION_OFFSET: usize = 64;

/// The byte offset of the normal matrix in the vertex region.
pub const NORMAL_OFFSET: usize = 128;

/// The byte offset of the light position in the fragment region.
pub const LIGHT_POSITION_OFFSET: usize = 0;

/// The byte offset of the eye position in the fragment region.
pub const EYE_POSITION_OFFSET: usize = 16;

/// The vertex region `bytes` holds the three matrices at their offsets.
pub open spec fn holds_vertex_uniforms(
    bytes: Seq<u8>,
    model: Mat4,
    view_projection: Mat4,
    normal: Mat4,
) -> bool {
    &&& bytes.len() == 192
    &&& is_memory_image(bytes.subrange(0, 64), model.words())
    &&& is_memory_image(bytes.subrange(64, 128), view_projection.words())
    &&& is_memory_image(bytes.subrange(128, 192), normal.words())
}

/// The fragment region `after` holds the two positions at their offsets, each
/// in the first twelve bytes of its 16-byte cell; the four bytes that pad each
/// cell are those of `before`.
pub open spec fn holds_fragment_uniforms(
    before: Seq<u8>,
    after: Seq<u8>,
    light_position: [u32; 3],
    eye_position: [u32; 3],
) -> bool {
    &&& before.len() == 32
    &&& after.len() == 32
    &&& is_memory_image(after.subrange(0, 12), light_position@)
    &&& is_memory_image(after.subrange(16, 28), eye_position@)
    &&& after.subrange(12, 16) == before.subrange(12, 16)
    &&& after.subrange(28, 32) == before.subrange(28, 32)
}

/// The light region `bytes` holds the twelve words of `light`.
pub open spec fn holds_light_uniforms(bytes: Seq<u8>, light: Light) -> bool {
    &&& bytes.len() == 48
    &&& is_memory_image(bytes, light.words())
}

/// The three uniform regions, bound at slots 0, 1 and 2. The set is built
/// once; afterwards its regions are rewritten in place.
#[derive(Clone, Copy, Debug)]
pub struct ResourceBindingSet {
    pub vertex: UniformRegion<192>,
    pub fragment: UniformRegion<32>,
    pub light: UniformRegion<48>,
}

impl ResourceBindingSet {
    /// The bytes of the region of the given kind.
    pub open spec fn bytes_of(&self, kind: RegionKind) -> Seq<u8> {
        match kind {
            RegionKind::Vertex => self.vertex@,
            RegionKind::Fragment => self.fragment@,
            RegionKind::Light => self.light@,
        }
    }

    /// Creates the three regions, each of its kind's size and filled with
    /// zero bytes.
    pub fn allocate() -> (set: Self)
        ensures
            forall|kind: RegionKind| #[trigger]
                set.bytes_of(kind) == Seq::new(kind.spec_size() as nat, |i: int| 0u8),
    {
        ResourceBindingSet {
            vertex: UniformRegion::new(),
            fragment: UniformRegion::new(),
            light: UniformRegion::new(),
        }
    }

    /// The bytes of the region of the given kind, as many as the kind has.
    pub fn region(&self, kind: RegionKind) -> (b: &[u8])
        ensures
            b@ == self.bytes_of(kind),
            b@.len() == kind.spec_size(),
    {
        match kind {
            RegionKind::Vertex => self.vertex.as_bytes(),
            RegionKind::Fragment => self.fragment.as_bytes(),
            RegionKind::Light => self.light.as_bytes(),
        }
    }

    /// The bytes of the region that is bound at `slot`: there is one for the
    /// slots 0, 1 and 2.
    pub fn at_slot(&self, slot: u32) -> (r: Option<&[u8]>)
        ensures
            r is Some <==> kind_at(slot as int) is Some,
            r is Some ==> r.unwrap()@ == self.bytes_of(kind_at(slot as int).unwrap()),
    {
        if slot == 0 {
            Some(self.region(RegionKind::Vertex))
        } else if slot == 1 {
            Some(self.region(RegionKind::Fragment))
        } else if slot == 2 {
            Some(self.region(RegionKind::Light))
        } else {
            None
        }
    }

    /// The binding layout: one entry for each region, in slot order.
    pub fn layout() -> (entries: [BindingEntry; 3])
        ensures
            forall|slot: int|
                0 <= slot < 3 ==> #[trigger] entries[slot] == entry_of(kind_at(slot).unwrap()),
    {
        [
            BindingEntry { binding: 0, visibility: ShaderStage::Vertex, size: 192 },
            BindingEntry { binding: 1, visibility: ShaderStage::Fragment, size: 32 },
            BindingEntry { binding: 2, visibility: ShaderStage::Fragment, size: 48 },
        ]
    }

    /// Writes the three matrices of a frame into the vertex region: the model
    /// matrix at byte 0, the view-projection matrix at byte 64 and the normal
    /// matrix at byte 128. The other regions are not touched.
    pub fn write_vertex_uniforms(&mut self, model: &Mat4, view_projection: &Mat4, normal: &Mat4)
        ensures
            holds_vertex_uniforms(final(self).vertex@, *model, *view_projection, *normal),
            final(self).fragment == old(self).fragment,
            final(self).light == old(self).light,
    {
        let first = self.vertex.write(MODEL_OFFSET, model.cells.as_slice());
        let ghost one = self.vertex@;
        let second = self.vertex.write(VIEW_PROJECTION_OFFSET, view_projection.cells.as_slice());
        let ghost two = self.vertex@;
        let third = self.vertex.write(NORMAL_OFFSET, normal.cells.as_slice());
        proof {
            let three = self.vertex@;
            assert(first is Ok && second is Ok && third is Ok);
            assert(two.subrange(0, 64) =~= one.subrange(0, 64));
            assert(three.subrange(0, 64) =~= two.subrange(0, 64));
            assert(three.subrange(64, 128) =~= two.subrange(64, 128));
        }
    }

    /// Writes the light position at byte 0 and the eye position at byte 16 of
    /// the fragment region, twelve bytes each. The other regions are not
    /// touched.
    pub fn write_fragment_uniforms(&mut self, light_position: &[u32; 3], eye_position: &[u32; 3])
        ensures
            holds_fragment_uniforms(
                old(self).fragment@,
                final(self).fragment@,
                *light_position,
                *eye_position,
            ),
            final(self).vertex == old(self).vertex,
            final(self).light == old(self).light,
    {
        let ghost zero = self.fragment@;
        let first = self.fragment.write(LIGHT_POSITION_OFFSET, light_position.as_slice());
        let ghost one = self.fragment@;
        let second = self.fragment.write(EYE_POSITION_OFFSET, eye_position.as_slice());
        proof {
            let two = self.fragment@;
            assert(first is Ok && second is Ok);
            assert(two.subrange(0, 12) =~= one.subrange(0, 12));
            assert(two.subrange(12, 16) =~= zero.subrange(12, 16));
            assert(two.subrange(28, 32) =~= zero.subrange(28, 32));
        }
    }

    /// Writes the light into the light region, which it fills. The other
    /// regions are not touched.
    pub fn write_light_uniforms(&mut self, light: &Light)
        ensures
            holds_light_uniforms(final(self).light@, *light),
            final(self).vertex == old(self).vertex,
            final(self).fragment == old(self).fragment,
    {
        let words: [u32; 12] = light.to_words();
        let done = self.light.write(0, words.as_slice());
        proof {
            assert(done is Ok);
            assert(self.light@.subrange(0, 48) =~= self.light@);
        }
    }
}

} // verus!
