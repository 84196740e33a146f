use vstd::prelude::*;
use crate::utils::{align, spec_align};

verus! {

/// How detailed a star is drawn, from a distant point of light to its
/// surface.
#[derive(Clone, Copy, Debug, Hash, PartialEq, Eq, Structural)]
pub enum StarResolution {
    /// Star is so far it can be rendered as particle
    Galaxy,
    /// Star is close enough to be rendered with some 3 Dimensionality
    Cluster,
    /// Star is in the local system and should be a full on sphere
    System5,
    System4,
    System3,
    System2,
    System1,
    System0,
    Orbit,
    Surface,
}

/// The position of a resolution in the order from coarsest to finest.
pub open spec fn spec_resolution_index(r: StarResolution) -> nat {
    match r {
        StarResolution::Galaxy => 0,
        StarResolution::Cluster => 1,
        StarResolution::System5 => 2,
        StarResolution::System4 => 3,
        StarResolution::System3 => 4,
        StarResolution::System2 => 5,
        StarResolution::System1 => 6,
        StarResolution::System0 => 7,
        StarResolution::Orbit => 8,
        StarResolution::Surface => 9,
    }
}

impl StarResolution {
    /// The index of the sphere mesh that draws this resolution.
    pub fn to_index(self) -> (r: usize)
        ensures
            r == spec_resolution_index(self),
    {
        match self {
            StarResolution::Galaxy => 0,
            StarResolution::Cluster => 1,
            StarResolution::System5 => 2,
            StarResolution::System4 => 3,
            StarResolution::System3 => 4,
            StarResolution::System2 => 5,
            StarResolution::System1 => 6,
            StarResolution::System0 => 7,
            StarResolution::Orbit => 8,
            StarResolution::Surface => 9,
        }
    }
}

/// Every resolution has its own mesh among the ten: the index is below ten
/// and no two resolutions share one.
pub proof fn law_resolution_index_is_a_slot(a: StarResolution, b: StarResolution)
    ensures
        spec_resolution_index(a) < 10,
        spec_resolution_index(a) == spec_resolution_index(b) ==> a == b,
{
}

} // verus!

verus! {

/// The resolution of the sphere mesh drawn for the resolution with the given
/// index: ten more subdivisions per step, starting at two.
pub open spec fn spec_mesh_resolution(index: int) -> int {
    index * 10 + 2
}

/// The resolutions of the ten sphere meshes, coarsest first.
pub fn star_mesh_resolutions() -> (r: Vec<u32>)
    ensures
        r@.len() == 10,
        forall|i: int| 0 <= i < 10 ==> r@[i] == spec_mesh_resolution(i),
{
    let mut r: Vec<u32> = Vec::new();
    let mut i: u32 = 0;
    while i < 10
        invariant
            i <= 10,
            r@.len() == i,
            forall|k: int| 0 <= k < i ==> r@[k] == spec_mesh_resolution(k),
        decreases 10 - i,
    {
        r.push(i * 10 + 2);
        i = i + 1;
    }
    r
}

/// The placement of per-star uniform data in one buffer: each star's block
/// starts at a multiple of the device's uniform offset alignment.
#[derive(Clone, Copy, Debug, PartialEq, Eq, Structural)]
pub struct UniformSlots {
    /// Bytes from one star's block to the next.
    pub stride: usize,
    /// Bytes of one star's block.
    pub size: usize,
}

impl UniformSlots {
    /// Blocks of `size` bytes, each starting at the next multiple of
    /// `alignment`.
    pub fn new(size: usize, alignment: usize) -> (r: Self)
        requires
            alignment > 0,
            size % alignment != 0 ==> size + alignment <= usize::MAX,
        ensures
            r.size == size,
            r.stride == spec_align(size as int, alignment as int),
    {
        UniformSlots { stride: align(size, alignment), size }
    }

    /// The size of a buffer that holds `count` blocks.
    pub fn buffer_size(&self, count: usize) -> (r: u64)
        requires
            self.stride * count <= u64::MAX,
        ensures
            r == self.stride * count,
    {
        proof {
            vstd::arithmetic::mul::lemma_mul_nonnegative(self.stride as int, count as int);
        }
        (self.stride as u64) * (count as u64)
    }

    /// The byte offset of the block of the star with the given index.
    pub fn offset(&self, index: usize) -> (r: u64)
        requires
            self.stride * index <= u64::MAX,
        ensures
            r == self.stride * index,
    {
        proof {
            vstd::arithmetic::mul::lemma_mul_nonnegative(self.stride as int, index as int);
        }
        (self.stride as u64) * (index as u64)
    }
}

/// Whether the per-star uniform buffers must be rebuilt for `count` stars:
/// when there is no buffer yet or it holds fewer stars.
pub fn needs_uniform_rebuild(capacity: usize, count: usize, has_buffer: bool) -> (r: bool)
    ensures
        r == (capacity < count || !has_buffer),
{
    capacity < count || !has_buffer
}

} // verus!
