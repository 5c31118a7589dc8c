//! The shader's side of a uniform block: where the shading language puts each
//! member of a structure, and how large the structure is. The regions are
//! written at fixed offsets; the laws here show that those offsets are the
//! ones a shader computes for the structures the regions stand for.

use vstd::prelude::*;
use crate::uniform::{
    RegionKind, EYE_POSITION_OFFSET, LIGHT_POSITION_OFFSET, MODEL_OFFSET, NORMAL_OFFSET,
    VIEW_PROJECTION_OFFSET,
};

verus! {

/// The type of a member of a uniform structure.
pub enum Member {
    /// One single-precision number.
    Scalar,
    /// A vector of three single-precision numbers.
    Vec3,
    /// A vector of four single-precision numbers.
    Vec4,
    /// A matrix of four columns of four single-precision numbers.
    Mat4x4,
}

impl Member {
    /// The bytes that a value of the type takes.
    pub open spec fn size(self) -> int {
        match self {
            Member::Scalar => 4,
            Member::Vec3 => 12,
            Member::Vec4 => 16,
            Member::Mat4x4 => 64,
        }
    }

    /// The multiple of bytes at which a value of the type must start.
    pub open spec fn align(self) -> int {
        match self {
            Member::Scalar => 4,
            Member::Vec3 => 16,
            Member::Vec4 => 16,
            Member::Mat4x4 => 16,
        }
    }
}

/// The least multiple of `align` that is not below `n`.
pub open spec fn round_up(align: int, n: int) -> int {
    ((n + align - 1) / align) * align
}

/// The byte offset of member `k` of a structure: the first member starts at
/// 0, and each further one at the first multiple of its alignment after the
/// end of the member before it.
pub open spec fn offset_of(members: Seq<Member>, k: int) -> int
    decreases k,
{
    if k <= 0 {
        0
    } else {
        round_up(members[k].align(), offset_of(members, k - 1) + members[k - 1].size())
    }
}

/// The alignment of a structure: the largest among its first `n` members.
pub open spec fn align_of(members: Seq<Member>, n: int) -> int
    decreases n,
{
    if n <= 0 {
        1
    } else {
        let rest = align_of(members, n - 1);
        if members[n - 1].align() > rest {
            members[n - 1].align()
        } else {
            rest
        }
    }
}

/// The size of a structure: the end of its last member, rounded up to the
/// structure's alignment.
pub open spec fn size_of(members: Seq<Member>) -> int {
    if members.len() == 0 {
        0
    } else {
        round_up(
            align_of(members, members.len() as int),
            offset_of(members, members.len() - 1) + members.last().size(),
        )
    }
}

/// The structure that the shader declares for a region.
pub open spec fn declared(kind: RegionKind) -> Seq<Member> {
    match kind {
        RegionKind::Vertex => seq![Member::Mat4x4, Member::Mat4x4, Member::Mat4x4],
        RegionKind::Fragment => seq![Member::Vec3, Member::Vec3],
        RegionKind::Light => seq![
            Member::Vec4,
            Member::Vec4,
            Member::Scalar,
            Member::Scalar,
            Member::Scalar,
            Member::Scalar,
        ],
    }
}

/// The three matrices are written where the shader reads them: model,
/// view-projection and normal matrix are the members 0, 1 and 2 of the vertex
/// structure.
pub proof fn lemma_vertex_offsets_agree()
    ensures
        offset_of(declared(RegionKind::Vertex), 0) == MODEL_OFFSET,
        offset_of(declared(RegionKind::Vertex), 1) == VIEW_PROJECTION_OFFSET,
        offset_of(declared(RegionKind::Vertex), 2) == NORMAL_OFFSET,
{
    reveal_with_fuel(offset_of, 4);
}

/// The two positions are written where the shader reads them: light and eye
/// position are the members 0 and 1 of the fragment structure, each at the
/// start of a 16-byte cell.
pub proof fn lemma_fragment_offsets_agree()
    ensures
        offset_of(declared(RegionKind::Fragment), 0) == LIGHT_POSITION_OFFSET,
        offset_of(declared(RegionKind::Fragment), 1) == EYE_POSITION_OFFSET,
{
    reveal_with_fuel(offset_of, 4);
}

/// The light's words are written where the shader reads them: the two
/// colours start at words 0 and 4, and the four intensities are the words 8
/// to 11, as `Light::words` lists them.
pub proof fn lemma_light_offsets_agree()
    ensures
        offset_of(declared(RegionKind::Light), 0) == 4 * 0,
        offset_of(declared(RegionKind::Light), 1) == 4 * 4,
        forall|k: int| 2 <= k < 6 ==> #[trigger] offset_of(declared(RegionKind::Light), k) == 4 * (k + 6),
{
    reveal_with_fuel(offset_of, 8);
}

/// Every region is as large as the structure that the shader declares for
/// it.
pub proof fn lemma_region_sizes_agree(kind: RegionKind)
    ensures
        size_of(declared(kind)) == kind.spec_size(),
{
    reveal_with_fuel(align_of, 8);
    match kind {
        RegionKind::Vertex => {
            let members = declared(RegionKind::Vertex);
            lemma_vertex_offsets_agree();
            assert(members.len() == 3 && members.last() == members[2]);
            assert(align_of(members, 3) == 16);
        },
        RegionKind::Fragment => {
            let members = declared(RegionKind::Fragment);
            lemma_fragment_offsets_agree();
            assert(members.len() == 2 && members.last() == members[1]);
            assert(align_of(members, 2) == 16);
        },
        RegionKind::Light => {
            let members = declared(RegionKind::Light);
            lemma_light_offsets_agree();
            assert(members.len() == 6 && members.last() == members[5]);
            assert(offset_of(members, 5) == 44);
            assert(align_of(members, 6) == 16);
        },
    }
}

} // verus!
