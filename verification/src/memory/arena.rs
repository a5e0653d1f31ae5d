//! The cursor of a bump allocator over a block of `N` bytes.

use vstd::prelude::*;

verus! {

/// Why an allocation was refused.
#[derive(Clone, Copy, Debug, PartialEq, Eq, Structural)]
pub enum ArenaError {
    /// The aligned allocation does not fit in what is left of the block.
    OutOfSpace,
}

/// Bookkeeping of a block of `N` bytes that is handed out front to back.
/// The block itself lives with the caller; the arena knows how much of it is
/// in use.
pub struct Arena<const N: usize> {
    offset: usize,
}

/// Whether `address` is a multiple of `align`.
pub open spec fn is_aligned(address: nat, align: nat) -> bool
    recommends
        align > 0,
{
    address % align == 0
}

/// The least address from `address` on that is a multiple of `align`.
pub open spec fn align_up(address: nat, align: nat) -> nat
    recommends
        align > 0,
{
    if address % align == 0 {
        address
    } else {
        (address + align - address % align) as nat
    }
}

/// `align_up` gives an aligned address, and the nearest one.
pub proof fn lemma_align_up(address: nat, align: nat)
    requires
        align > 0,
    ensures
        is_aligned(align_up(address, align), align),
        address <= align_up(address, align) < address + align,
        forall|other: nat| address <= other && #[trigger] is_aligned(other, align) ==> align_up(address, align) <= other,
{
    let up = align_up(address, align);
    let rem = address % align;
    assert(address == align * (address / align) + rem) by (nonlinear_arith)
        requires
            align > 0,
            rem == address % align,
    ;
    if rem != 0 {
        let q = address / align;
        assert(up == align * (q + 1)) by (nonlinear_arith)
            requires
                up == address + align - rem,
                address == align * q + rem,
        ;
        assert(up % align == 0) by (nonlinear_arith)
            requires
                up == align * (q + 1),
                align > 0,
        ;
        assert forall|other: nat| address <= other && #[trigger] is_aligned(other, align) implies up <= other by {
            let k = other / align;
            assert(other == align * k) by (nonlinear_arith)
                requires
                    other % align == 0,
                    k == other / align,
                    align > 0,
            ;
            assert(k > q) by (nonlinear_arith)
                requires
                    align * k >= align * q + rem,
                    rem > 0,
                    align > 0,
            ;
            assert(align * k >= align * (q + 1)) by (nonlinear_arith)
                requires
                    k >= q + 1,
                    align > 0,
            ;
        }
    }
}

impl<const N: usize> Default for Arena<N> {
    fn default() -> (arena: Self)
        ensures
            arena.used() == 0,
            arena.wf(),
    {
        Arena { offset: 0 }
    }
}

impl<const N: usize> Arena<N> {
    /// Number of bytes in use.
    pub closed spec fn used(&self) -> nat {
        self.offset as nat
    }

    /// Whether the bytes in use are within the block, as they are for every
    /// arena that this module hands out.
    pub open spec fn wf(&self) -> bool {
        self.used() <= N
    }

    /// An arena with nothing in use.
    pub fn new() -> (arena: Self)
        ensures
            arena.used() == 0,
            arena.wf(),
    {
        Arena { offset: 0 }
    }

    /// Takes `size` bytes, aligned to `align`, from a block that starts at
    /// the address `base` and lies within the address space, and returns
    /// their offset in the block: the least offset past the bytes in use
    /// whose address is a multiple of `align`.
    ///
    /// Fails, and changes nothing, if the bytes do not lie within the block.
    pub fn alloc_layout(&mut self, base: usize, size: usize, align: usize) -> (r: Result<usize, ArenaError>)
        requires
            old(self).wf(),
            align > 0,
            base + N <= usize::MAX,
        ensures
            final(self).wf(),
            match r {
                Ok(offset) => {
                    &&& base + offset == align_up(base as nat + old(self).used(), align as nat)
                    &&& offset + size <= N
                    &&& final(self).used() == offset + size
                },
                Err(e) => {
                    &&& e == ArenaError::OutOfSpace
                    &&& align_up(base as nat + old(self).used(), align as nat) - base + size > N
                    &&& *final(self) == *old(self)
                },
            },
    {
        proof {
            lemma_align_up(base as nat + self.used(), align as nat);
        }
        let current = base + self.offset;
        let rem = current % align;
        let aligned = if rem == 0 {
            current
        } else {
            match current.checked_add(align - rem) {
                Some(aligned) => aligned,
                None => {
                    return Err(ArenaError::OutOfSpace);
                },
            }
        };
        let aligned_offset = aligned - base;
        if aligned_offset > N || size > N - aligned_offset {
            return Err(ArenaError::OutOfSpace);
        }
        self.offset = aligned_offset + size;
        Ok(aligned_offset)
    }

    /// Returns the number of bytes used.
    pub fn bytes_used(&self) -> (used: usize)
        ensures
            used == self.used(),
    {
        self.offset
    }

    /// Returns the remaining capacity in bytes.
    pub fn remaining_capacity(&self) -> (left: usize)
        requires
            self.wf(),
        ensures
            left == N - self.used(),
    {
        N - self.offset
    }

    /// Returns true if the arena is empty.
    pub fn is_empty(&self) -> (empty: bool)
        ensures
            empty == (self.used() == 0),
    {
        self.offset == 0
    }

    /// Gives everything that is in use back. What was allocated must not be
    /// used afterwards.
    pub fn reset(&mut self)
        ensures
            final(self).used() == 0,
            final(self).wf(),
    {
        self.offset = 0;
    }

    /// Gets the total capacity of the arena.
    pub fn capacity(&self) -> (capacity: usize)
        ensures
            capacity == N,
    {
        N
    }
}

} // verus!
