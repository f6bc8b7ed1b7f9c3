//! The bump allocator of Zero OS processes: a heap of `SIZE` bytes starting
//! at 0x10000, handed out by moving a head forward and never reclaimed.

use vstd::prelude::*;
use vstd::arithmetic::power2::pow2;
use vstd::bits::{low_bits_mask, lemma_usize_low_bits_mask_is_mod};

verus! {

/// Heap start address (64 KiB in, clear of the runtime's first pages).
pub const HEAP_START: usize = 0x10000;

/// Whether `a` is a power of two that a `usize` holds.
pub open spec fn is_pow2(a: usize) -> bool {
    exists|k: nat| k < usize::BITS && pow2(k) == a
}

/// `x` rounded up to a multiple of `a`.
pub open spec fn align_up(x: int, a: int) -> int {
    x + a - 1 - (x + a - 1) % a
}

/// Where an allocation of `size` bytes aligned to `align` lands when the
/// head stands at `head`, with the head after it; `None` when it does not
/// fit in a heap of `heap_size` bytes.
pub open spec fn bump_spec(head: usize, size: usize, align: usize, heap_size: usize) -> Option<
    (usize, usize),
> {
    let aligned = align_up(HEAP_START + head, align as int);
    let new_head = aligned - HEAP_START + size;
    if new_head > heap_size {
        None
    } else {
        Some((aligned as usize, new_head as usize))
    }
}

proof fn lemma_mask_round(x: usize, align: usize)
    requires
        is_pow2(align),
    ensures
        x & !((align - 1) as usize) == x - x % align,
{
    let k = choose|k: nat| k < usize::BITS && pow2(k) == align;
    vstd::arithmetic::power2::lemma_pow2_pos(k);
    assert(low_bits_mask(k) == pow2(k) - 1);
    lemma_usize_low_bits_mask_is_mod(x, k);
    let m = (align - 1) as usize;
    assert(x & m <= x && x & !m == x - (x & m)) by (bit_vector);
}

/// Place an allocation of `size` bytes aligned to `align` at the first
/// aligned address at or after `HEAP_START + head`; the new head is just
/// past it. `None` when it would pass `heap_size`.
pub fn bump_alloc(head: usize, size: usize, align: usize, heap_size: usize) -> (r: Option<
    (usize, usize),
>)
    requires
        layout_ok(size, align),
        head <= heap_size,
        HEAP_START + heap_size <= isize::MAX,
    ensures
        r == bump_spec(head, size, align, heap_size),
        r matches Some((addr, new_head)) ==> {
            &&& addr % align == 0
            &&& HEAP_START + head <= addr
            &&& addr + size == HEAP_START + new_head
            &&& new_head <= heap_size
        },
{
    proof {
        lemma_pow2_positive(align);
        lemma_layout_fits(size, align, heap_size);
    }
    let x = HEAP_START + head + align - 1;
    let aligned = x & !(align - 1);
    proof {
        lemma_mask_round(x, align);
        vstd::arithmetic::div_mod::lemma_fundamental_div_mod(x as int, align as int);
        vstd::arithmetic::div_mod::lemma_mod_multiples_basic(x as int / align as int, align as int);
        assert(aligned == (x as int / align as int) * align);
    }
    let new_head = aligned - HEAP_START + size;
    if new_head > heap_size {
        None
    } else {
        Some((aligned, new_head))
    }
}

proof fn lemma_pow2_positive(align: usize)
    requires
        is_pow2(align),
    ensures
        align > 0,
{
    let k = choose|k: nat| k < usize::BITS && pow2(k) == align;
    vstd::arithmetic::power2::lemma_pow2_pos(k);
}

/// What a memory layout guarantees: its alignment is a power of two, and
/// its size rounded up to that alignment fits in an `isize`.
pub open spec fn layout_ok(size: usize, align: usize) -> bool {
    is_pow2(align) && align_up(size as int, align as int) <= isize::MAX
}

/// A valid layout on a heap that ends within `isize` leaves room for the
/// bump step's sums.
proof fn lemma_layout_fits(size: usize, align: usize, heap_size: usize)
    requires
        layout_ok(size, align),
        HEAP_START + heap_size <= isize::MAX,
    ensures
        HEAP_START + heap_size + align + size <= usize::MAX,
{
    let k = choose|k: nat| k < usize::BITS && pow2(k) == align;
    lemma_pow2_positive(align);
    let a = align as int;
    let x = size + a - 1;
    let r = align_up(size as int, a);
    vstd::arithmetic::div_mod::lemma_fundamental_div_mod(x, a);
    assert(r == a * (x / a));
    assert(r >= size);
    vstd::arithmetic::power2::lemma2_to64();
    vstd::arithmetic::power2::lemma2_to64_rest();
    let top: nat = (usize::BITS - 1) as nat;
    assert(usize::BITS == 32 || usize::BITS == 64);
    let m = isize::MAX + 1;
    assert(m == pow2(top)) by {
        if usize::BITS == 64 {
            assert(isize::MAX == 0x7fff_ffff_ffff_ffff);
            assert(top == 63);
            assert(pow2(63) == 0x8000_0000_0000_0000);
        } else {
            assert(isize::MAX == 0x7fff_ffff);
            assert(top == 31);
            assert(pow2(31) == 0x8000_0000);
        }
    }
    assert(usize::MAX == 2 * isize::MAX + 1) by {
        if usize::BITS == 64 {
            assert(isize::MAX == 0x7fff_ffff_ffff_ffff);
        } else {
            assert(isize::MAX == 0x7fff_ffff);
        }
    }
    if k <= top {
        vstd::arithmetic::power2::lemma_pow2_adds(k, (top - k) as nat);
        assert(top == k + (top - k) as nat);
        let q2 = pow2((top - k) as nat) as int;
        assert(m == a * q2);
        let q1 = x / a;
        assert(q1 < q2) by (nonlinear_arith)
            requires
                a * q1 < a * q2,
                a > 0,
        ;
        assert(r + a <= m) by (nonlinear_arith)
            requires
                r == a * q1,
                m == a * q2,
                q1 + 1 <= q2,
                a > 0,
        ;
    }
}

/// Bump allocator over a heap of `SIZE` bytes.
pub struct BumpAllocator<const SIZE: usize> {
    head: usize,
}

impl<const SIZE: usize> BumpAllocator<SIZE> {
    /// The bytes handed out so far.
    pub closed spec fn used(&self) -> usize {
        self.head
    }

    /// The head never passes the end of the heap.
    pub closed spec fn wf(&self) -> bool {
        self.head <= SIZE
    }

    /// Create a new bump allocator with nothing handed out.
    pub fn new() -> (a: Self)
        ensures
            a.wf(),
            a.used() == 0,
    {
        BumpAllocator { head: 0 }
    }

    /// Allocate `size` bytes aligned to `align`, a valid layout: the
    /// address of a block that starts at or after everything handed out so
    /// far, or `None` when the heap is exhausted. The heap must end within
    /// `isize`.
    pub fn allocate(&mut self, size: usize, align: usize) -> (r: Option<usize>)
        requires
            old(self).wf(),
            layout_ok(size, align),
            HEAP_START + SIZE <= isize::MAX,
        ensures
            final(self).wf(),
            match bump_spec(old(self).used(), size, align, SIZE) {
                Some((addr, new_head)) => r == Some(addr) && final(self).used() == new_head,
                None => r is None && final(self).used() == old(self).used(),
            },
            r matches Some(addr) ==> addr % align == 0 && HEAP_START + old(self).used() <= addr
                && addr + size == HEAP_START + final(self).used(),
    {
        match bump_alloc(self.head, size, align, SIZE) {
            Some((addr, new_head)) => {
                self.head = new_head;
                Some(addr)
            },
            None => None,
        }
    }

    /// Memory is never given back: it is reclaimed when the process exits.
    pub fn dealloc(&mut self, addr: usize, size: usize)
        ensures
            *final(self) == *old(self),
    {
    }
}

/// Two allocations in a row never overlap: the second starts where the
/// first ended or later.
pub proof fn lemma_allocations_disjoint(
    head: usize,
    size1: usize,
    align1: usize,
    size2: usize,
    align2: usize,
    heap_size: usize,
)
    requires
        is_pow2(align1),
        is_pow2(align2),
        HEAP_START + heap_size <= usize::MAX,
        bump_spec(head, size1, align1, heap_size) is Some,
        bump_spec(bump_spec(head, size1, align1, heap_size)->Some_0.1, size2, align2, heap_size) is Some,
    ensures
        ({
            let (a1, h1) = bump_spec(head, size1, align1, heap_size)->Some_0;
            let (a2, h2) = bump_spec(h1, size2, align2, heap_size)->Some_0;
            a1 + size1 <= a2
        }),
{
    let (a1, h1) = bump_spec(head, size1, align1, heap_size)->Some_0;
    lemma_pow2_positive(align1);
    lemma_pow2_positive(align2);
    let x1 = HEAP_START + head + align1 - 1;
    assert(0 <= x1 % (align1 as int) < align1);
    let x2 = HEAP_START + h1 + align2 - 1;
    assert(0 <= x2 % (align2 as int) < align2);
}

} // verus!
