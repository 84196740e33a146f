use vstd::prelude::*;

verus! {

/// Side of the square of texels that one bloom compute workgroup covers.
pub const BLOOM_COMPUTE_WORKSIZE: u32 = 4;

/// Number of binary digits of `n`: 0 for 0, otherwise one more than the
/// position of the highest set bit.
pub open spec fn bit_length(n: nat) -> nat
    decreases n,
{
    if n == 0 { 0 } else { 1 + bit_length(n / 2) }
}

/// The larger of the two sides, and at least 1.
pub open spec fn max_side(width: u32, height: u32) -> nat {
    let m = if width < height { height } else { width };
    if m < 1 { 1 } else { m as nat }
}

/// The number of mip levels of a full chain for a 2D extent of one layer.
pub open spec fn spec_max_mips(width: u32, height: u32) -> nat {
    bit_length(max_side(width, height))
}

/// One side of an extent at mip level `level`: halved `level` times, and at
/// least 1.
pub open spec fn spec_mip_side(side: u32, level: u32) -> u32 {
    let s = side >> level;
    if s < 1 { 1 } else { s }
}

/// `wgpu_types::Extent3d::max_mips`, on a 2D extent of one array layer. The
/// crate computes `32 - max(width, height, 1).leading_zeros()`, which is the
/// number of binary digits of the larger side; the contract states that.
#[verifier::external_body]
fn max_mips(width: u32, height: u32) -> (r: u32)
    ensures
        r == spec_max_mips(width, height),
{
    wgpu_types::Extent3d { width, height, depth_or_array_layers: 1 }.max_mips()
}

/// `wgpu_types::Extent3d::mip_level_size` for a 2D texture: each side shifted
/// right by `level` and raised to at least 1, as the crate's source writes it.
/// A shift by 32 or more overflows there, so `level` stays below 32.
#[verifier::external_body]
fn mip_level_size(width: u32, height: u32, level: u32) -> (r: (u32, u32))
    requires
        level < 32,
    ensures
        r == (spec_mip_side(width, level), spec_mip_side(height, level)),
{
    let e = wgpu_types::Extent3d { width, height, depth_or_array_layers: 1 }.mip_level_size(level, false);
    (e.width, e.height)
}

/// One side of the bloom textures for a target side: half the target,
/// rounded up to the next multiple of the workgroup size (a full workgroup
/// more when it already is one).
pub open spec fn spec_bloom_side(side: u32) -> int {
    let h = side / 2;
    h + (4 - h % 4)
}

/// The size of the bloom textures for a target of the given size.
pub fn bloom_extent(width: u32, height: u32) -> (r: (u32, u32))
    ensures
        r.0 == spec_bloom_side(width),
        r.1 == spec_bloom_side(height),
{
    let width = width / 2;
    let height = height / 2;
    let width = width + (BLOOM_COMPUTE_WORKSIZE - (width % BLOOM_COMPUTE_WORKSIZE));
    let height = height + (BLOOM_COMPUTE_WORKSIZE - (height % BLOOM_COMPUTE_WORKSIZE));
    (width, height)
}

/// The bloom texture sides are positive multiples of the workgroup size that
/// exceed half the target.
pub proof fn law_bloom_side_is_workgroup_multiple(side: u32)
    ensures
        spec_bloom_side(side) % 4 == 0,
        spec_bloom_side(side) > side / 2,
        spec_bloom_side(side) <= side / 2 + 4,
        spec_bloom_side(side) >= 4,
{
}

/// The size of the bloom textures and whether they must be rebuilt.
#[derive(Clone, Copy, Debug)]
pub struct BloomSize {
    pub width: u32,
    pub height: u32,
    pub levels: u32,
    pub needs_resize: bool,
}

impl BloomSize {
    /// The state before the first frame: a placeholder size that must be
    /// rebuilt.
    pub fn new() -> (r: Self)
        ensures
            r.width == 1,
            r.height == 1,
            r.levels == 1,
            r.needs_resize,
    {
        BloomSize { width: 1, height: 1, levels: 1, needs_resize: true }
    }

    /// Takes the size for the next frame. Returns whether the textures must
    /// be rebuilt: the size changed or a rebuild is pending, and the new size
    /// is not empty. Then the size is taken over and the mip chain is the
    /// full chain of that size.
    pub fn resize(&mut self, width: u32, height: u32) -> (rebuild: bool)
        ensures
            rebuild == spec_bloom_rebuilds(*old(self), width, height),
            rebuild ==> *final(self) == (BloomSize {
                width,
                height,
                levels: spec_max_mips(width, height) as u32,
                needs_resize: false,
            }),
            !rebuild ==> *final(self) == *old(self),
    {
        if (width != self.width || height != self.height || self.needs_resize) && (width > 0 && height > 0) {
            self.width = width;
            self.height = height;
            self.needs_resize = false;
            self.levels = max_mips(width, height);
            true
        } else {
            false
        }
    }
}

/// Whether taking the size `width` by `height` rebuilds the bloom textures.
pub open spec fn spec_bloom_rebuilds(s: BloomSize, width: u32, height: u32) -> bool {
    (width != s.width || height != s.height || s.needs_resize) && width > 0 && height > 0
}

/// After a rebuild, the same size again rebuilds nothing; an empty size
/// never rebuilds.
pub proof fn law_bloom_rebuild_once(s: BloomSize, width: u32, height: u32)
    ensures
        spec_bloom_rebuilds(s, width, height) ==> !spec_bloom_rebuilds(
            BloomSize { width, height, levels: spec_max_mips(width, height) as u32, needs_resize: false },
            width,
            height,
        ),
        (width == 0 || height == 0) ==> !spec_bloom_rebuilds(s, width, height),
{
}

/// When the bloom textures are rebuilt: a new size that differs from the
/// current one in either side rebuilds, as does a pending rebuild, provided
/// both sides are positive; the current size with nothing pending, or any
/// empty size, rebuilds nothing.
pub proof fn law_bloom_rebuilds_on_size_change(s: BloomSize, width: u32, height: u32)
    ensures
        width > 0 && height > 0 && width != s.width ==> spec_bloom_rebuilds(s, width, height),
        width > 0 && height > 0 && height != s.height ==> spec_bloom_rebuilds(s, width, height),
        width > 0 && height > 0 && s.needs_resize ==> spec_bloom_rebuilds(s, width, height),
        width == s.width && height == s.height && !s.needs_resize ==> !spec_bloom_rebuilds(s, width, height),
        width == 0 || height == 0 ==> !spec_bloom_rebuilds(s, width, height),
{
}

/// Number of downsampling passes for a mip chain of `levels` levels: the
/// prefilter pass, then two passes for each level past the third.
pub open spec fn spec_downsample_passes(levels: u32) -> int {
    1 + if levels > 3 { 2 * (levels - 3) } else { 0 }
}

/// Number of downsampling passes for a mip chain of `levels` levels.
pub fn downsample_passes(levels: u32) -> (r: u32)
    requires
        spec_downsample_passes(levels) <= u32::MAX,
    ensures
        r == spec_downsample_passes(levels),
{
    let mut passes: u32 = 1;
    if levels > 3 {
        passes = passes + 2 * (levels - 3);
    }
    passes
}

/// Number of upsampling passes for a mip chain of `levels` levels.
pub fn upsample_passes(levels: u32) -> (r: u32)
    ensures
        r == 1 + if levels > 4 { levels - 4 } else { 0 },
{
    let mut passes: u32 = 1;
    if levels > 4 {
        passes = passes + (levels - 4);
    }
    passes
}

/// How many uniform buffers a pass list holds after a rebuild: one more
/// when it holds fewer than the passes need, else as many as before.
pub fn grown_uniform_slots(len: usize, passes: u32) -> (r: usize)
    requires
        len < usize::MAX,
    ensures
        r == if len < passes { len + 1 } else { len as int },
{
    if len < passes as usize { len + 1 } else { len }
}

/// The mip level that the `k`-th downsampling dispatch works on: the
/// prefilter on level 0, then each level from 1 on twice.
pub open spec fn spec_down_dispatch_level(k: int) -> int {
    (k + 1) / 2
}

/// The mip levels of the downsampling dispatches, in order, for a chain of
/// `levels` levels (of which the last two are not downsampled into).
pub fn down_dispatch_levels(levels: u32) -> (r: Vec<u32>)
    requires
        levels >= 2,
    ensures
        r@.len() == if levels >= 3 { 2 * (levels - 2) - 1 } else { 1 },
        forall|k: int| 0 <= k < r@.len() ==> r@[k] == spec_down_dispatch_level(k),
{
    let mips = levels - 2;
    let mut r: Vec<u32> = Vec::new();
    r.push(0);
    let mut i: u32 = 1;
    while i < mips
        invariant
            1 <= i,
            mips == levels - 2,
            i <= mips || (mips == 0 && i == 1),
            r@.len() == 2 * i - 1,
            forall|k: int| 0 <= k < r@.len() ==> r@[k] == spec_down_dispatch_level(k),
        decreases mips - i,
    {
        r.push(i);
        r.push(i);
        i = i + 1;
    }
    r
}

/// The mip levels of the upsampling dispatches, in order: none for chains of
/// four levels or fewer, otherwise from level `levels - 4` down to 0.
pub fn up_dispatch_levels(levels: u32) -> (r: Vec<u32>)
    requires
        levels >= 2,
    ensures
        levels - 2 > 2 ==> r@.len() == levels - 3,
        levels - 2 <= 2 ==> r@.len() == 0,
        forall|k: int| 0 <= k < r@.len() ==> r@[k] == levels - 4 - k,
{
    let mips = levels - 2;
    let mut r: Vec<u32> = Vec::new();
    if mips > 2 {
        r.push(mips - 2);
        let mut i: u32 = mips - 2;
        while i > 0
            invariant
                mips == levels - 2,
                mips > 2,
                i <= mips - 2,
                r@.len() == mips - 1 - i,
                forall|k: int| 0 <= k < r@.len() ==> r@[k] == levels - 4 - k,
            decreases i,
        {
            i = i - 1;
            r.push(i);
        }
    }
    r
}

/// The number of workgroups along each side that a dispatch on mip level
/// `level` of a `width` by `height` chain takes: the mip's sides divided by
/// the workgroup size (before the renderer's conversion through `f32`).
pub fn mip_dispatch(width: u32, height: u32, level: u32) -> (r: (u32, u32))
    requires
        level < 32,
    ensures
        r == (spec_mip_side(width, level) / 4, spec_mip_side(height, level) / 4),
{
    let (w, h) = mip_level_size(width, height, level);
    (w / BLOOM_COMPUTE_WORKSIZE, h / BLOOM_COMPUTE_WORKSIZE)
}

/// The parameters of one downsampling pass: the mip level of detail it reads
/// and whether it applies the bright-pass filter.
#[derive(Clone, Copy, Debug, PartialEq, Eq, Structural)]
pub struct DownPassParams {
    pub lod: i64,
    pub filter: u32,
}

/// The parameters of the downsampling passes, in order: the prefilter (level
/// of detail 0, filtered), then for each level `i` from 1 a pass reading
/// level `i - 1` and a pass reading level `i`, unfiltered.
pub fn down_pass_params(levels: u32) -> (r: Vec<DownPassParams>)
    requires
        levels >= 2,
    ensures
        r@.len() == if levels - 2 >= 1 { 2 * (levels - 2) - 1 } else { 1 },
        r@[0] == (DownPassParams { lod: 0, filter: 1 }),
        forall|k: int| 1 <= k < r@.len() ==> #[trigger] r@[k] == (DownPassParams { lod: (k / 2) as i64, filter: 0 }),
{
    let mips = levels - 2;
    let mut r: Vec<DownPassParams> = Vec::new();
    r.push(DownPassParams { lod: 0, filter: 1 });
    let mut i: u32 = 1;
    while i < mips
        invariant
            1 <= i,
            mips == levels - 2,
            i <= mips || (mips == 0 && i == 1),
            r@.len() == 2 * i - 1,
            r@[0] == (DownPassParams { lod: 0, filter: 1 }),
            forall|k: int| 1 <= k < r@.len() ==> #[trigger] r@[k] == (DownPassParams { lod: (k / 2) as i64, filter: 0 }),
        decreases mips - i,
    {
        r.push(DownPassParams { lod: i as i64 - 1, filter: 0 });
        r.push(DownPassParams { lod: i as i64, filter: 0 });
        i = i + 1;
    }
    r
}

} // verus!
