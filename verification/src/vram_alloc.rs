//! A dead-simple VRAM bump allocator.

use vstd::prelude::*;
use crate::sys::gu::TexturePixelFormat;

verus! {

/// Number of bytes that a `width` x `height` texture of format `psm` occupies.
pub open spec fn memory_size(width: u32, height: u32, psm: TexturePixelFormat) -> int {
    match psm {
        TexturePixelFormat::PsmT4 => (width * height) / 2,
        TexturePixelFormat::PsmT8 => width * height,
        TexturePixelFormat::Psm5650
        | TexturePixelFormat::Psm5551
        | TexturePixelFormat::Psm4444
        | TexturePixelFormat::PsmT16 => 2 * width * height,
        TexturePixelFormat::Psm8888 | TexturePixelFormat::PsmT32 => 4 * width * height,
        _ => 0,
    }
}

/// The inputs on which `get_memory_size` computes without overflow: an
/// uncompressed format whose every intermediate product fits in a `u32`.
pub open spec fn memory_size_defined(width: u32, height: u32, psm: TexturePixelFormat) -> bool {
    match psm {
        TexturePixelFormat::PsmT4 | TexturePixelFormat::PsmT8 => width * height <= u32::MAX,
        TexturePixelFormat::Psm5650
        | TexturePixelFormat::Psm5551
        | TexturePixelFormat::Psm4444
        | TexturePixelFormat::PsmT16 => 2 * width <= u32::MAX && 2 * width * height <= u32::MAX,
        TexturePixelFormat::Psm8888 | TexturePixelFormat::PsmT32 => 4 * width <= u32::MAX && 4
            * width * height <= u32::MAX,
        _ => false,
    }
}

/// Texture memory grows with the bits per pixel: an 8-bit texture takes
/// one byte per texel, a 4-bit one half of that (rounded down), the 16-bit
/// formats twice and the 32-bit formats four times as much; compressed
/// formats take none.
pub proof fn lemma_memory_size_by_depth(width: u32, height: u32)
    ensures
        memory_size(width, height, TexturePixelFormat::PsmT8) == width * height,
        memory_size(width, height, TexturePixelFormat::PsmT4) == memory_size(width, height, TexturePixelFormat::PsmT8) / 2,
        memory_size(width, height, TexturePixelFormat::Psm5650) == 2 * memory_size(width, height, TexturePixelFormat::PsmT8),
        memory_size(width, height, TexturePixelFormat::Psm5551) == 2 * memory_size(width, height, TexturePixelFormat::PsmT8),
        memory_size(width, height, TexturePixelFormat::Psm4444) == 2 * memory_size(width, height, TexturePixelFormat::PsmT8),
        memory_size(width, height, TexturePixelFormat::PsmT16) == 2 * memory_size(width, height, TexturePixelFormat::PsmT8),
        memory_size(width, height, TexturePixelFormat::Psm8888) == 4 * memory_size(width, height, TexturePixelFormat::PsmT8),
        memory_size(width, height, TexturePixelFormat::PsmT32) == 4 * memory_size(width, height, TexturePixelFormat::PsmT8),
        forall|psm: TexturePixelFormat| #[trigger] psm.is_compressed() ==> memory_size(width, height, psm) == 0,
{
    assert(2 * width * height == 2 * (width * height)) by (nonlinear_arith);
    assert(4 * width * height == 4 * (width * height)) by (nonlinear_arith);
}

/// Whether `get_memory_size` computes for these inputs: an uncompressed
/// format whose intermediate products fit in a `u32`.
pub fn memory_size_is_defined(width: u32, height: u32, psm: TexturePixelFormat) -> (b: bool)
    ensures
        b == memory_size_defined(width, height, psm),
{
    let factor: u64 = match psm {
        TexturePixelFormat::PsmT4 | TexturePixelFormat::PsmT8 => 1,
        TexturePixelFormat::Psm5650
        | TexturePixelFormat::Psm5551
        | TexturePixelFormat::Psm4444
        | TexturePixelFormat::PsmT16 => 2,
        TexturePixelFormat::Psm8888 | TexturePixelFormat::PsmT32 => 4,
        _ => {
            return false;
        },
    };
    let w: u64 = factor * (width as u64);
    if w > u32::MAX as u64 {
        return false;
    }
    assert(w * height <= u32::MAX as u64 * u32::MAX as u64) by (nonlinear_arith)
        requires
            w <= u32::MAX,
            height <= u32::MAX,
    ;
    let total: u128 = (w as u128) * (height as u128);
    total <= u32::MAX as u128
}

/// Number of bytes of texture memory for `width` x `height` pixels of format `psm`.
pub fn get_memory_size(width: u32, height: u32, psm: TexturePixelFormat) -> (size: u32)
    requires
        memory_size_defined(width, height, psm),
    ensures
        size == memory_size(width, height, psm),
{
    match psm {
        TexturePixelFormat::PsmT4 => {
            let pixels: u32 = width * height;
            assert(pixels >> 1 == pixels / 2) by (bit_vector);
            pixels >> 1
        },
        TexturePixelFormat::PsmT8 => width * height,
        TexturePixelFormat::Psm5650
        | TexturePixelFormat::Psm5551
        | TexturePixelFormat::Psm4444
        | TexturePixelFormat::PsmT16 => 2 * width * height,
        TexturePixelFormat::Psm8888 | TexturePixelFormat::PsmT32 => 4 * width * height,
        _ => 0,
    }
}


/// Returned when the VRAM allocator has already been handed out.
#[derive(Debug)]
pub struct VramAllocatorInUseError {}

/// Holds the one VRAM allocator of the program until it is taken.
pub struct VramAllocatorSingleton {
    allocator: Option<SimpleVramAllocator>,
}

impl VramAllocatorSingleton {
    /// The allocator still held, if it has not been taken yet.
    pub closed spec fn held(&self) -> Option<SimpleVramAllocator> {
        self.allocator
    }

    /// A singleton holding a fresh allocator over `total_vram` bytes of VRAM.
    pub fn new(total_vram: u32) -> (s: Self)
        ensures
            s.held() matches Some(a) && a.used() == 0 && a.capacity() == total_vram,
    {
        VramAllocatorSingleton { allocator: Some(SimpleVramAllocator::new(total_vram)) }
    }

    /// Takes the allocator out; every later call gets `None`.
    pub fn get_vram_alloc(&mut self) -> (a: Option<SimpleVramAllocator>)
        ensures
            a == old(self).held(),
            final(self).held() is None,
    {
        self.allocator.take()
    }
}

/// One call of `get_vram_allocator`: it succeeds exactly when the singleton
/// still holds the allocator, and the singleton holds none afterwards.
pub open spec fn handout_step(held_before: bool, held_after: bool, ok: bool) -> bool {
    ok == held_before && !held_after
}

/// Call `k` of a sequence of calls of `get_vram_allocator` is a `handout_step`.
pub open spec fn handout_sequence_step(held: Seq<bool>, ok: Seq<bool>, k: int) -> bool {
    handout_step(held[k], held[k + 1], ok[k])
}

/// Over any sequence of calls of `get_vram_allocator` on one singleton, with
/// nothing else touching it, at most one call succeeds: every call after a
/// successful one fails.
///
/// `held[k]` is whether the singleton holds the allocator before call `k`,
/// and `ok[k]` whether call `k` returned `Ok`; each call's `ensures` gives
/// `handout_step` for them.
pub proof fn lemma_allocator_handed_out_once(held: Seq<bool>, ok: Seq<bool>)
    requires
        held.len() == ok.len() + 1,
        forall|k: int| 0 <= k < ok.len() ==> #[trigger] handout_sequence_step(held, ok, k),
    ensures
        forall|i: int, j: int| 0 <= i < j < ok.len() && #[trigger] ok[i] ==> !#[trigger] ok[j],
{
    assert forall|i: int, j: int| 0 <= i < j < ok.len() && #[trigger] ok[i] implies !#[trigger] ok[j] by {
        assert(handout_sequence_step(held, ok, j - 1));
        assert(handout_sequence_step(held, ok, j));
    }
}

/// Hands out the VRAM allocator held by `singleton`, or reports that it is in use.
pub fn get_vram_allocator(singleton: &mut VramAllocatorSingleton) -> (r: Result<
    SimpleVramAllocator,
    VramAllocatorInUseError,
>)
    ensures
        final(singleton).held() is None,
        handout_step(old(singleton).held() is Some, final(singleton).held() is Some, r is Ok),
        match old(singleton).held() {
            Some(a) => r == Ok::<SimpleVramAllocator, VramAllocatorInUseError>(a),
            None => r is Err,
        },
{
    match singleton.get_vram_alloc() {
        Some(a) => Ok(a),
        None => Err(VramAllocatorInUseError {  }),
    }
}

/// A chunk of VRAM: `len` bytes starting `start` bytes into VRAM.
pub struct VramMemChunk {
    start: u32,
    len: u32,
    generation: Ghost<nat>,
}

impl VramMemChunk {
    /// Offset of the chunk from the start of VRAM, in bytes.
    pub closed spec fn offset(&self) -> int {
        self.start as int
    }

    /// Length of the chunk, in bytes.
    pub closed spec fn length(&self) -> int {
        self.len as int
    }

    /// The allocator generation in which the chunk was handed out; the chunk
    /// is valid while its allocator is still in that generation.
    pub closed spec fn generation(&self) -> nat {
        self.generation@
    }

    /// Whether the chunk is still valid in allocator `a`: no `free_all` has
    /// run since `a` handed it out, so it lies within the bytes `a` has used.
    pub open spec fn is_live_in(&self, a: &SimpleVramAllocator) -> bool {
        self.generation() == a.generation() && self.offset() + self.length() <= a.used()
    }

    fn new(start: u32, len: u32, generation: Ghost<nat>) -> (c: Self)
        ensures
            c.offset() == start,
            c.length() == len,
            c.generation() == generation@,
    {
        VramMemChunk { start, len, generation }
    }

    /// Address of the chunk when VRAM is counted from address zero, as the
    /// graphics-unit functions expect.
    pub fn addr_from_zero(&self) -> (a: usize)
        ensures
            a == self.offset(),
    {
        vram_start_addr_zero() + self.start as usize
    }

    /// Address of the chunk given the address `vram_base` at which VRAM is mapped.
    pub fn addr_direct_to_vram(&self, vram_base: usize) -> (a: usize)
        requires
            vram_base + self.offset() <= usize::MAX,
        ensures
            a == vram_base + self.offset(),
    {
        vram_base + self.start as usize
    }

    /// Length of the chunk, in bytes.
    pub fn len(&self) -> (l: u32)
        ensures
            l == self.length(),
    {
        self.len
    }

    /// Whether the chunk has no bytes.
    pub fn is_empty(&self) -> (b: bool)
        ensures
            b == (self.length() == 0),
    {
        self.len == 0
    }
}

/// A dead-simple VRAM bump allocator.
pub struct SimpleVramAllocator {
    offset: u32,
    total: u32,
    generation: Ghost<nat>,
}

impl SimpleVramAllocator {
    /// Bytes handed out since creation or the last `free_all`.
    pub closed spec fn used(&self) -> int {
        self.offset as int
    }

    /// Total bytes of VRAM that the allocator manages.
    pub closed spec fn capacity(&self) -> int {
        self.total as int
    }

    /// How many times `free_all` has run: the chunks handed out before the
    /// last `free_all` belong to earlier generations and are no longer valid.
    pub closed spec fn generation(&self) -> nat {
        self.generation@
    }

    fn new(total: u32) -> (a: Self)
        ensures
            a.used() == 0,
            a.capacity() == total,
            a.generation() == 0,
    {
        SimpleVramAllocator { offset: 0, total, generation: Ghost(0) }
    }

    /// Frees all previously allocated VRAM chunks.
    ///
    /// This resets the allocator's counter, but does not change the contents of
    /// VRAM.
    pub fn free_all(&mut self)
        ensures
            final(self).used() == 0,
            final(self).capacity() == old(self).capacity(),
            final(self).generation() == old(self).generation() + 1,
            forall|c: VramMemChunk| #[trigger] c.is_live_in(old(self)) ==> !c.is_live_in(&*final(self)),
    {
        self.offset = 0;
        self.generation = Ghost(self.generation@ + 1);
    }

    /// Whether `size` more bytes fit into VRAM.
    pub fn can_alloc(&self, size: u32) -> (b: bool)
        ensures
            b == (self.used() + size <= self.capacity()),
    {
        size <= self.total && self.offset <= self.total - size
    }

    /// Allocates `size` bytes of VRAM, right after the previous allocation.
    ///
    /// The chunk lies within VRAM; asking for more than is left is refused by
    /// the precondition (test with `can_alloc` first).
    pub fn allocate(&mut self, size: u32) -> (chunk: VramMemChunk)
        requires
            old(self).used() + size <= old(self).capacity(),
        ensures
            chunk.offset() == old(self).used(),
            chunk.length() == size,
            chunk.offset() + chunk.length() <= final(self).capacity(),
            final(self).used() == old(self).used() + size,
            final(self).capacity() == old(self).capacity(),
            final(self).generation() == old(self).generation(),
            chunk.is_live_in(&*final(self)),
            forall|c: VramMemChunk| #[trigger] c.is_live_in(old(self)) ==> c.is_live_in(&*final(self)),
            allocation_step(old(self).used(), final(self).used(), chunk.offset(), chunk.length()),
    {
        let old_offset = self.offset;
        let new_offset = old_offset + size;
        self.offset = new_offset;
        VramMemChunk::new(old_offset, size, Ghost(self.generation@))
    }

    /// Allocates room for `count` values of type `T`.
    pub fn alloc_sized<T: Sized>(&mut self, count: u32) -> (chunk: VramMemChunk)
        requires
            count * (vstd::layout::size_of::<T>() as u32) <= u32::MAX,
            old(self).used() + count * (vstd::layout::size_of::<T>() as u32) <= old(
                self,
            ).capacity(),
        ensures
            chunk.offset() == old(self).used(),
            chunk.length() == count * (vstd::layout::size_of::<T>() as u32),
            final(self).used() == old(self).used() + chunk.length(),
            final(self).capacity() == old(self).capacity(),
            final(self).generation() == old(self).generation(),
            chunk.is_live_in(&*final(self)),
            forall|c: VramMemChunk| #[trigger] c.is_live_in(old(self)) ==> c.is_live_in(&*final(self)),
            allocation_step(old(self).used(), final(self).used(), chunk.offset(), chunk.length()),
    {
        let size = core::mem::size_of::<T>() as u32;
        self.allocate(count * size)
    }

    /// Allocates VRAM for `width` x `height` texture pixels of format `psm`.
    pub fn alloc_texture_pixels(&mut self, width: u32, height: u32, psm: TexturePixelFormat) -> (chunk:
        VramMemChunk)
        requires
            memory_size_defined(width, height, psm),
            old(self).used() + memory_size(width, height, psm) <= old(self).capacity(),
        ensures
            chunk.offset() == old(self).used(),
            chunk.length() == memory_size(width, height, psm),
            final(self).used() == old(self).used() + chunk.length(),
            final(self).capacity() == old(self).capacity(),
            final(self).generation() == old(self).generation(),
            chunk.is_live_in(&*final(self)),
            forall|c: VramMemChunk| #[trigger] c.is_live_in(old(self)) ==> c.is_live_in(&*final(self)),
            allocation_step(old(self).used(), final(self).used(), chunk.offset(), chunk.length()),
    {
        let size = get_memory_size(width, height, psm);
        self.allocate(size)
    }

    /// Total bytes of VRAM that the allocator manages.
    pub fn total_mem(&self) -> (t: u32)
        ensures
            t == self.capacity(),
    {
        self.total
    }
}

/// A chunk stays inside the VRAM that its allocator manages for as long as
/// it is live: from its allocation until the next `free_all`.
pub proof fn lemma_live_chunk_within_vram(c: VramMemChunk, a: SimpleVramAllocator)
    requires
        a.used() <= a.capacity(),
        c.is_live_in(&a),
    ensures
        0 <= c.offset(),
        0 <= c.length(),
        c.offset() + c.length() <= a.capacity(),
{
}

/// Address of VRAM as the graphics-unit functions count it: they start their
/// pointer indices at zero.
pub fn vram_start_addr_zero() -> (a: usize)
    ensures
        a == 0,
{
    0
}


/// One allocation by the bump discipline: the chunk starts where the used
/// bytes ended and the used bytes grow by the chunk's length.
pub open spec fn allocation_step(used_before: int, used_after: int, offset: int, length: int) -> bool {
    offset == used_before && length >= 0 && used_after == used_before + length
}

/// Call `k` of a sequence of allocations is an `allocation_step`.
pub open spec fn sequence_step(used: Seq<int>, chunks: Seq<(int, int)>, k: int) -> bool {
    allocation_step(used[k], used[k + 1], chunks[k].0, chunks[k].1)
}

proof fn lemma_used_monotone(used: Seq<int>, chunks: Seq<(int, int)>, i: int, j: int)
    requires
        used.len() == chunks.len() + 1,
        forall|k: int| 0 <= k < chunks.len() ==> #[trigger] sequence_step(used, chunks, k),
        0 <= i <= j < used.len(),
    ensures
        used[i] <= used[j],
    decreases j - i,
{
    if i < j {
        lemma_used_monotone(used, chunks, i, j - 1);
        assert(sequence_step(used, chunks, j - 1));
    }
}

/// Chunks handed out by successive allocations (`allocate`, `alloc_sized`,
/// `alloc_texture_pixels`) with no `free_all` in between lie in call order
/// without overlap: each ends where or before every later one starts, and
/// all lie between the bytes used before the first and after the last call.
/// Starting from a fresh or freed allocator (`used[0] == 0`) the first chunk
/// starts at offset 0.
///
/// `used[k]` is the allocator's `used()` before call `k` and `chunks[k]` the
/// offset and length of the chunk that call returned; each call's `ensures`
/// gives `allocation_step` for them.
pub proof fn lemma_successive_allocations(used: Seq<int>, chunks: Seq<(int, int)>)
    requires
        used.len() == chunks.len() + 1,
        forall|k: int| 0 <= k < chunks.len() ==> #[trigger] sequence_step(used, chunks, k),
    ensures
        forall|i: int, j: int|
            0 <= i < j < chunks.len() ==> #[trigger] chunks[i].0 + chunks[i].1 <= #[trigger] chunks[j].0,
        forall|i: int|
            0 <= i < chunks.len() ==> used[0] <= #[trigger] chunks[i].0 && chunks[i].0 + chunks[i].1
                <= used[chunks.len() as int],
        chunks.len() > 0 && used[0] == 0 ==> chunks[0].0 == 0,
{
    assert forall|i: int, j: int| 0 <= i < j < chunks.len() implies #[trigger] chunks[i].0 + chunks[i].1
        <= #[trigger] chunks[j].0 by {
        assert(sequence_step(used, chunks, i));
        assert(sequence_step(used, chunks, j));
        lemma_used_monotone(used, chunks, i + 1, j);
    }
    assert forall|i: int| 0 <= i < chunks.len() implies used[0] <= #[trigger] chunks[i].0
        && chunks[i].0 + chunks[i].1 <= used[chunks.len() as int] by {
        assert(sequence_step(used, chunks, i));
        lemma_used_monotone(used, chunks, 0, i);
        lemma_used_monotone(used, chunks, i + 1, chunks.len() as int);
    }
    if chunks.len() > 0 {
        assert(sequence_step(used, chunks, 0));
    }
}

/// Total number of bytes asked for by a sequence of allocation sizes.
pub open spec fn total_size(sizes: Seq<u32>) -> int
    decreases sizes.len(),
{
    if sizes.len() == 0 {
        0
    } else {
        total_size(sizes.drop_last()) + sizes.last()
    }
}

/// Offset of the `i`-th chunk handed out when allocations of `sizes` are made
/// in order on an allocator that has used `start` bytes: each allocation starts
/// where the previous one ended.
pub open spec fn chunk_offset(start: int, sizes: Seq<u32>, i: int) -> int {
    start + total_size(sizes.take(i))
}

proof fn lemma_total_size_take_step(sizes: Seq<u32>, i: int)
    requires
        0 <= i < sizes.len(),
    ensures
        total_size(sizes.take(i + 1)) == total_size(sizes.take(i)) + sizes[i],
{
    assert(sizes.take(i + 1).drop_last() =~= sizes.take(i));
}

proof fn lemma_total_size_take_mono(sizes: Seq<u32>, i: int, j: int)
    requires
        0 <= i <= j <= sizes.len(),
    ensures
        total_size(sizes.take(i)) <= total_size(sizes.take(j)),
    decreases j - i,
{
    if i < j {
        lemma_total_size_take_mono(sizes, i, j - 1);
        lemma_total_size_take_step(sizes, j - 1);
    }
}

/// Chunks handed out by successive allocations never overlap: a chunk ends
/// where or before every later chunk starts, and all of them end within the
/// bytes used once the last allocation is made.
pub proof fn lemma_allocations_disjoint(start: int, sizes: Seq<u32>, i: int, j: int)
    requires
        0 <= i < j < sizes.len(),
    ensures
        chunk_offset(start, sizes, i) + sizes[i] <= chunk_offset(start, sizes, j),
        chunk_offset(start, sizes, j) + sizes[j] <= start + total_size(sizes),
        start <= chunk_offset(start, sizes, i),
{
    lemma_total_size_take_step(sizes, i);
    lemma_total_size_take_mono(sizes, i + 1, j);
    lemma_total_size_take_step(sizes, j);
    lemma_total_size_take_mono(sizes, j + 1, sizes.len() as int);
    assert(sizes.take(sizes.len() as int) =~= sizes);
    lemma_total_size_take_mono(sizes, 0, i);
    assert(sizes.take(0) =~= Seq::<u32>::empty());
}

} // verus!
