use vstd::prelude::*;
use vstd::string::StringExecFns;
use std::collections::HashMap;
use crate::text::{push_decimal, spec_decimal};
use crate::utils::spec_align;

verus! {

/// Id of a palette, the texture that a painted element samples from.
/// The painter hands out ids from its bind group registry.
#[derive(Clone, Copy, Debug, PartialEq, Eq, Structural)]
pub struct PaletteId(pub usize);

impl PaletteId {
    /// The id that a user interface texture id carries.
    pub fn from_raw(id: usize) -> (r: PaletteId)
        ensures
            r.0 == id,
    {
        PaletteId(id)
    }

    /// The raw number behind this id.
    pub fn raw(&self) -> (r: usize)
        ensures
            r == self.0,
    {
        self.0
    }
}

} // verus!

verus! {

/// Errors of the painter.
#[derive(Clone, Debug)]
pub enum PaintError {
    /// An element referred to a palette that is not (or no longer) registered.
    InvalidPalette(PaletteId),
}

/// The message that describes a painter error.
pub open spec fn spec_paint_error_message(e: PaintError) -> Seq<char> {
    match e {
        PaintError::InvalidPalette(id) =>
            "Painter error: invalid palette id '"@ + spec_decimal(id.0 as nat) + "'"@,
    }
}

impl PaintError {
    /// The human readable message of this error.
    pub fn message(&self) -> (r: String)
        ensures
            r@ == spec_paint_error_message(*self),
    {
        match self {
            PaintError::InvalidPalette(id) => {
                let mut s = String::from_str("Painter error: invalid palette id '");
                push_decimal(&mut s, id.0);
                s.append("'");
                s
            },
        }
    }
}

/// A 16 bit vertex index, as the painter's index buffer holds it.
#[derive(Clone, Copy, Debug)]
pub struct PaintIdx(pub u16);

/// Registry of the texture bind groups that painted elements refer to by id.
/// Ids are handed out in increasing order starting at 1, so that 0 is never
/// a valid id.
pub struct BindGroupRegistry<T> {
    bind_groups: HashMap<usize, T>,
    next: usize,
}

impl<T> BindGroupRegistry<T> {
    /// The bind groups currently registered, by id.
    pub closed spec fn entries(&self) -> Map<usize, T> {
        self.bind_groups@
    }

    /// The id that the next insertion hands out.
    pub closed spec fn next_id(&self) -> usize {
        self.next
    }

    /// Every registered id lies between 1 and the next id to be handed out.
    pub open spec fn wf(&self) -> bool {
        &&& self.next_id() >= 1
        &&& forall|k: usize| #[trigger] self.entries().contains_key(k) ==> 1 <= k < self.next_id()
    }

    /// An empty registry.
    pub fn new() -> (r: Self)
        ensures
            r.wf(),
            r.entries() == Map::<usize, T>::empty(),
            r.next_id() == 1,
    {
        BindGroupRegistry { bind_groups: HashMap::new(), next: 1 }
    }

    /// Registers a bind group and returns its id.
    pub fn insert(&mut self, bind_group: T) -> (id: usize)
        requires
            old(self).next_id() < usize::MAX,
        ensures
            id == old(self).next_id(),
            final(self).next_id() == old(self).next_id() + 1,
            final(self).entries() == old(self).entries().insert(id, bind_group),
            old(self).wf() ==> final(self).wf() && id != 0 && !old(self).entries().contains_key(id),
    {
        broadcast use vstd::std_specs::hash::group_hash_axioms;
        let id = self.next;
        self.bind_groups.insert(id, bind_group);
        self.next = self.next + 1;
        proof {
            if old(self).wf() {
                assert forall|k: usize| #[trigger] self.entries().contains_key(k) implies 1 <= k < self.next_id() by {
                    if k != id {
                        assert(old(self).entries().contains_key(k));
                    }
                }
            }
        }
        id
    }

    /// Unregisters the bind group with the given id, handing it back.
    pub fn remove(&mut self, id: usize) -> (r: Option<T>)
        ensures
            final(self).next_id() == old(self).next_id(),
            final(self).entries() == old(self).entries().remove(id),
            r == (if old(self).entries().contains_key(id) { Some(old(self).entries()[id]) } else { None::<T> }),
            old(self).wf() ==> final(self).wf(),
    {
        broadcast use vstd::std_specs::hash::group_hash_axioms;
        self.bind_groups.remove(&id)
    }

    /// The bind group registered under the given id, if any.
    pub fn get(&self, id: usize) -> (r: Option<&T>)
        ensures
            r == (if self.entries().contains_key(id) { Some(&self.entries()[id]) } else { None::<&T> }),
    {
        broadcast use vstd::std_specs::hash::group_hash_axioms;
        self.bind_groups.get(&id)
    }
}

/// A bind group is found under its id from its insertion until its
/// removal, and not after: insertion and removal touch no other id.
pub proof fn law_registry_lookup<T>(entries: Map<usize, T>, id: usize, other: usize, bind_group: T)
    requires
        other != id,
    ensures
        entries.insert(id, bind_group).contains_key(id),
        entries.insert(id, bind_group)[id] == bind_group,
        !entries.remove(id).contains_key(id),
        entries.insert(id, bind_group).contains_key(other) == entries.contains_key(other),
        entries.remove(id).contains_key(other) == entries.contains_key(other),
        entries.contains_key(other) ==> entries.insert(id, bind_group)[other] == entries[other],
{
}

/// What the painter knows of a palette besides its GPU texture: its id,
/// its size in pixels and its flags.
#[derive(Clone, Copy, Debug)]
pub struct PaletteInfo {
    pub id: usize,
    pub width: u32,
    pub height: u32,
    pub is_srgb: bool,
    pub is_renderable: bool,
}

impl PaletteInfo {
    /// The width of the texture in pixels.
    pub fn width(&self) -> (r: u32)
        ensures
            r == self.width,
    {
        self.width
    }

    /// The height of the texture in pixels.
    pub fn height(&self) -> (r: u32)
        ensures
            r == self.height,
    {
        self.height
    }

    /// The number of bytes the texture takes up (four per pixel).
    pub fn size(&self) -> (r: u32)
        requires
            self.width * self.height * 4 <= u32::MAX,
        ensures
            r == self.width * self.height * 4,
    {
        proof {
            vstd::arithmetic::mul::lemma_mul_nonnegative(self.width as int, self.height as int);
            assert(self.width * self.height <= self.width * self.height * 4) by (nonlinear_arith)
                requires self.width * self.height >= 0;
        }
        self.width * self.height * 4
    }

    /// Whether or not the image is displayed in srgb space.
    pub fn is_srgb(&self) -> (r: bool)
        ensures
            r == self.is_srgb,
    {
        self.is_srgb
    }

    /// Whether the image can be used as an attachment in a render pass.
    pub fn is_renderable(&self) -> (r: bool)
        ensures
            r == self.is_renderable,
    {
        self.is_renderable
    }

    /// The id under which the palette's bind group is registered.
    pub fn id(&self) -> (r: PaletteId)
        ensures
            r.0 == self.id,
    {
        PaletteId(self.id)
    }

    /// Whether `len` bytes of pixel data is what a write into this palette
    /// takes; the length is compared as a `u32`, as the painter does.
    pub fn accepts_data_len(&self, len: usize) -> (r: bool)
        requires
            self.width * self.height * 4 <= u32::MAX,
        ensures
            r == ((len as u32) == self.width * self.height * 4),
    {
        (len as u32) == self.size()
    }
}

/// `wgpu_types::COPY_BUFFER_ALIGNMENT`, the alignment of buffer copies; the
/// crate declares it as the constant 4.
#[verifier::external_body]
fn copy_buffer_alignment() -> (r: u64)
    ensures
        r == 4,
{
    wgpu_types::COPY_BUFFER_ALIGNMENT
}

/// The size of a GPU buffer that holds `len` bytes: rounded up to the copy
/// alignment of 4 bytes, and never smaller than 4.
pub open spec fn spec_copy_aligned(len: int) -> int {
    let a = spec_align(len, 4);
    if a < 4 { 4 } else { a }
}

/// Rounds a byte length up to a valid buffer size for copies: a multiple of
/// the copy alignment that is greater than zero.
pub fn apply_copy_alignment(len: usize) -> (r: u64)
    requires
        len + 3 <= u64::MAX,
    ensures
        r == spec_copy_aligned(len as int),
{
    let alignment = copy_buffer_alignment();
    let align_mask = alignment - 1;
    let y: u64 = len as u64 + align_mask;
    let rounded = y & !align_mask;
    proof {
        assert(y & !3u64 == y - y % 4) by (bit_vector);
        assert(y - y % 4 == spec_align(len as int, 4)) by {
            assert((len as int + 3) % 4 == if len % 4 == 0 { 3int } else { len % 4 - 1 });
        }
    }
    if rounded < alignment { alignment } else { rounded }
}

/// The size of a buffer after a frame that needs `required` bytes: the
/// buffer is recreated at exactly that size when it is smaller.
pub open spec fn spec_grown(current: int, required: int) -> int {
    if current < required { required } else { current }
}

/// Buffer sizes are valid copy sizes: multiples of 4, at least 4, and the
/// least such size that holds the data.
pub proof fn law_copy_aligned_size(len: int)
    requires
        len >= 0,
    ensures
        spec_copy_aligned(len) % 4 == 0,
        spec_copy_aligned(len) >= 4,
        spec_copy_aligned(len) >= len,
        spec_copy_aligned(len) < len + 4 || len == 0,
{
    crate::utils::law_align_is_least_multiple(len, 4, 0);
}

/// A buffer never shrinks, and after a frame it holds what the frame needs.
pub proof fn law_buffers_grow_to_fit(current: int, required: int)
    ensures
        spec_grown(current, required) >= current,
        spec_grown(current, required) >= required,
        spec_grown(spec_grown(current, required), required) == spec_grown(current, required),
{
}

/// The staged bytes fill the buffer exactly: the data comes first, and
/// whatever follows it is zero.
pub proof fn law_staging_fills_buffer(bytes: Seq<u8>, size: int)
    requires
        bytes.len() <= size,
    ensures
        spec_staged(bytes, size).len() == size,
        spec_staged(bytes, size).take(bytes.len() as int) == bytes,
        forall|i: int| bytes.len() <= i < size ==> #[trigger] spec_staged(bytes, size)[i] == 0u8,
{
    assert(spec_staged(bytes, size).take(bytes.len() as int) =~= bytes);
}

/// The sizes of the painter's vertex and index buffers. A buffer is
/// recreated, at exactly the size needed, when a frame no longer fits.
#[derive(Clone, Copy, Debug)]
pub struct PainterBufferSizes {
    pub vertex: u64,
    pub index: u64,
}

/// Which buffers must be recreated for a frame.
#[derive(Clone, Copy, Debug, PartialEq, Eq, Structural)]
pub struct BufferRecreation {
    pub vertex: bool,
    pub index: bool,
}

impl PainterBufferSizes {
    /// Both buffers start at one mebibyte.
    pub fn new() -> (r: Self)
        ensures
            r.vertex == 1024 * 1024,
            r.index == 1024 * 1024,
    {
        PainterBufferSizes { vertex: 1024 * 1024, index: 1024 * 1024 }
    }

    /// Makes room for a frame of `vertex_bytes` bytes of vertices and
    /// `index_bytes` bytes of indices, and says which buffers must be
    /// recreated: those whose aligned size grew.
    pub fn update(&mut self, vertex_bytes: usize, index_bytes: usize) -> (r: BufferRecreation)
        requires
            vertex_bytes + 3 <= u64::MAX,
            index_bytes + 3 <= u64::MAX,
        ensures
            r.vertex == (old(self).vertex < spec_copy_aligned(vertex_bytes as int)),
            r.index == (old(self).index < spec_copy_aligned(index_bytes as int)),
            final(self).vertex == spec_grown(old(self).vertex as int, spec_copy_aligned(vertex_bytes as int)),
            final(self).index == spec_grown(old(self).index as int, spec_copy_aligned(index_bytes as int)),
    {
        let vertex_size = apply_copy_alignment(vertex_bytes);
        let index_size = apply_copy_alignment(index_bytes);
        let recreate_vertex = self.vertex < vertex_size;
        if recreate_vertex {
            self.vertex = vertex_size;
        }
        let recreate_index = self.index < index_size;
        if recreate_index {
            self.index = index_size;
        }
        BufferRecreation { vertex: recreate_vertex, index: recreate_index }
    }
}

/// The bytes that are uploaded from the staging buffer: the data, then zeros
/// up to the buffer size (or the data cut to the size, should it be longer).
pub open spec fn spec_staged(bytes: Seq<u8>, size: int) -> Seq<u8> {
    if bytes.len() <= size {
        bytes + Seq::new((size - bytes.len()) as nat, |i: int| 0u8)
    } else {
        bytes.take(size)
    }
}

/// Refills the staging buffer with `bytes`, padded with zeros to `size` bytes.
pub fn fill_staging(staging: &mut Vec<u8>, bytes: &[u8], size: u64)
    requires
        size <= usize::MAX,
    ensures
        final(staging)@ == spec_staged(bytes@, size as int),
{
    staging.clear();
    staging.reserve(size as usize);
    staging.extend_from_slice(bytes);
    proof {
        assert forall|i: int| 0 <= i < staging@.len() implies #[trigger] staging@[i] == bytes@[i] by {
            assert(cloned::<u8>(bytes@[i], staging@[i]));
        }
        assert(staging@ =~= bytes@);
    }
    let ghost copied = staging@;
    staging.resize(size as usize, 0);
    proof {
        if bytes@.len() <= size {
            assert forall|i: int| 0 <= i < staging@.len() implies #[trigger] staging@[i] == spec_staged(bytes@, size as int)[i] by {
                if i < bytes@.len() {
                    assert(staging@.subrange(0, copied.len() as int)[i] == copied[i]);
                } else {
                    assert(cloned::<u8>(0u8, staging@[i]));
                }
            }
        }
        assert(staging@ =~= spec_staged(bytes@, size as int));
    }
}

} // verus!
