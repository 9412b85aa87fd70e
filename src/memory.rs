//! Physical memory: a forward-only bump allocator.

use vstd::prelude::*;

verus! {

/// First physical address handed out, reserved for the kernel by the memory layout.
pub const FRAME_BASE: usize = 0x0100_0000;

/// The cursor moved on by `size` bytes, wrapping silently past the top of the
/// address space.
pub open spec fn bumped(next: usize, size: usize) -> usize {
    if next + size > usize::MAX {
        (next + size - usize::MAX - 1) as usize
    } else {
        (next + size) as usize
    }
}

/// Sum of a sequence of sizes.
pub open spec fn total(sizes: Seq<usize>) -> int
    decreases sizes.len(),
{
    if sizes.len() == 0 {
        0
    } else {
        total(sizes.drop_last()) + sizes.last()
    }
}

/// The allocation cursor after allocating each of `sizes` in turn from `start`.
pub open spec fn cursor_after(start: usize, sizes: Seq<usize>) -> usize
    decreases sizes.len(),
{
    if sizes.len() == 0 {
        start
    } else {
        bumped(cursor_after(start, sizes.drop_last()), sizes.last())
    }
}

/// The allocator: the next free physical address. Nothing is ever freed.
pub struct BumpAllocator {
    next: usize,
}

impl View for BumpAllocator {
    type V = usize;

    closed spec fn view(&self) -> usize {
        self.next
    }
}

impl BumpAllocator {
    /// An allocator whose cursor stands at `FRAME_BASE`.
    pub fn new() -> (a: BumpAllocator)
        ensures
            a@ == FRAME_BASE,
    {
        BumpAllocator { next: FRAME_BASE }
    }

    /// The next address that `allocate` will return.
    pub fn next_free(&self) -> (r: usize)
        ensures
            r == self@,
    {
        self.next
    }
}

/// Prepares physical memory management; nothing to do before the allocator is used.
pub fn init() {
}

/// Returns the current cursor as the start of a region of `size` bytes and moves
/// the cursor past it. No alignment, no bound check, no reclamation.
pub fn allocate(a: &mut BumpAllocator, size: usize) -> (addr: usize)
    ensures
        addr == old(a)@,
        final(a)@ == bumped(old(a)@, size),
{
    let addr = a.next;
    a.next = a.next.wrapping_add(size);
    addr
}

proof fn lemma_total_prefix_step(sizes: Seq<usize>, k: int)
    requires
        0 <= k < sizes.len(),
    ensures
        total(sizes.take(k + 1)) == total(sizes.take(k)) + sizes[k],
{
    assert(sizes.take(k + 1).drop_last() =~= sizes.take(k));
}

proof fn lemma_total_prefix_monotone(sizes: Seq<usize>, j: int, k: int)
    requires
        0 <= j <= k <= sizes.len(),
    ensures
        total(sizes.take(j)) <= total(sizes.take(k)),
    decreases k - j,
{
    if j < k {
        lemma_total_prefix_monotone(sizes, j, k - 1);
        lemma_total_prefix_step(sizes, k - 1);
    }
}

proof fn lemma_cursor_after_prefix(start: usize, sizes: Seq<usize>, k: int)
    requires
        0 <= k <= sizes.len(),
        start + total(sizes) <= usize::MAX,
    ensures
        cursor_after(start, sizes.take(k)) == start + total(sizes.take(k)),
    decreases k,
{
    lemma_total_prefix_monotone(sizes, k, sizes.len() as int);
    assert(sizes.take(sizes.len() as int) =~= sizes);
    if k > 0 {
        lemma_cursor_after_prefix(start, sizes, k - 1);
        lemma_total_prefix_step(sizes, k - 1);
        assert(sizes.take(k).drop_last() =~= sizes.take(k - 1));
    }
}

/// For allocations of `sizes` in turn from `start` that stay inside the address
/// space, the k-th address returned is `start` plus the sizes before it; each
/// region ends at or before every later address, so no two regions overlap; and
/// an address returned for a non-empty region is below every later one.
pub proof fn lemma_bump_sequence(start: usize, sizes: Seq<usize>)
    requires
        start + total(sizes) <= usize::MAX,
    ensures
        forall|k: int|
            0 <= k < sizes.len() ==> #[trigger] cursor_after(start, sizes.take(k)) == start
                + total(sizes.take(k)),
        forall|j: int, k: int|
            0 <= j < k < sizes.len() ==> #[trigger] cursor_after(start, sizes.take(j))
                + sizes[j] <= #[trigger] cursor_after(start, sizes.take(k)),
        forall|j: int, k: int|
            0 <= j < k < sizes.len() && sizes[j] > 0 ==> #[trigger] cursor_after(
                start,
                sizes.take(j),
            ) < #[trigger] cursor_after(start, sizes.take(k)),
{
    assert forall|k: int| 0 <= k < sizes.len() implies #[trigger] cursor_after(
        start,
        sizes.take(k),
    ) == start + total(sizes.take(k)) by {
        lemma_cursor_after_prefix(start, sizes, k);
    }
    assert forall|j: int, k: int| 0 <= j < k < sizes.len() implies #[trigger] cursor_after(
        start,
        sizes.take(j),
    ) + sizes[j] <= #[trigger] cursor_after(start, sizes.take(k)) by {
        lemma_cursor_after_prefix(start, sizes, j);
        lemma_cursor_after_prefix(start, sizes, k);
        lemma_total_prefix_step(sizes, j);
        lemma_total_prefix_monotone(sizes, j + 1, k);
    }
}

} // verus!
