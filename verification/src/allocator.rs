//! The bootstrap allocator: the process's sole dynamic-memory interface.
//!
//! It supplies allocate, zero-initialized allocate, free and resize, built
//! entirely on the heap-create/allocate/free/reallocate primitives and a
//! heap handle created once, lazily, with growable semantics. The
//! allocator tracks no size or alignment metadata itself: the underlying
//! heap is trusted to, and here that heap is the explicit model of
//! `crate::heap`. A resize may move the block; the prior pointer is dead
//! afterwards and must not be used again.
//!
//! The environment this layer serves has no unwinding support: a native
//! allocation failure must end in an unconditional process abort, never a
//! recoverable error. The model heap cannot run out, so that fatal path
//! has no occasion here; what remains of it is the proved absence of any
//! error-return path in this interface.

use vstd::prelude::*;

use crate::heap::HEAP_GROWABLE;
use crate::heap::HEAP_ZERO_MEMORY;
use crate::heap::NativeHeap;

verus! {

/// Handle naming the one bootstrap heap of the process; nonzero, as every
/// valid native handle is.
pub const BOOTSTRAP_HEAP_HANDLE: u64 = 1;

/// The bootstrap allocator: the one native heap of the process, created
/// lazily by `initialize`.
pub struct NtHeapAlloc {
    created: bool,
    heap: NativeHeap,
}

impl NtHeapAlloc {
    /// The heap has been created.
    pub closed spec fn initialized(&self) -> bool {
        self.created
    }

    /// The heap was created with growable semantics.
    pub closed spec fn growable(&self) -> bool {
        self.heap.is_growable()
    }

    /// Count of pointer tokens handed out so far, freed ones included.
    pub closed spec fn tokens(&self) -> int {
        self.heap.tokens()
    }

    /// `p` names a live block of the bootstrap heap.
    pub closed spec fn valid(&self, p: u64) -> bool {
        self.created && self.heap.valid(p)
    }

    /// Contents of the live block named by `p`.
    pub closed spec fn block(&self, p: u64) -> Seq<u8> {
        self.heap.block(p)
    }

    /// Every block other than `p` is carried over unchanged from `prior`.
    pub open spec fn others_kept(&self, prior: &NtHeapAlloc, p: u64) -> bool {
        forall|q: u64|
            q != p ==> (self.valid(q) <==> prior.valid(q)) && (prior.valid(q) ==> self.block(q)
                == prior.block(q))
    }

    /// An allocator whose heap is not yet created.
    pub fn new() -> (r: NtHeapAlloc)
        ensures
            !r.initialized(),
    {
        NtHeapAlloc { created: false, heap: NativeHeap::create(0) }
    }

    /// Creates the heap with growable semantics; the model of invoking the
    /// resolved heap-create primitive and keeping the handle.
    pub fn initialize(&mut self)
        ensures
            final(self).initialized(),
            final(self).growable(),
            final(self).tokens() == 0,
            forall|q: u64| !final(self).valid(q),
    {
        proof {
            assert(2u32 & 2u32 != 0u32) by (bit_vector);
        }
        self.heap = NativeHeap::create(HEAP_GROWABLE);
        self.created = true;
    }

    /// The handle of the bootstrap heap: nonzero once the heap exists,
    /// zero before.
    pub fn handle(&self) -> (r: u64)
        ensures
            self.initialized() ==> r == BOOTSTRAP_HEAP_HANDLE,
            !self.initialized() ==> r == 0,
    {
        if self.created {
            BOOTSTRAP_HEAP_HANDLE
        } else {
            0
        }
    }

    /// Allocates `size` bytes with no special flags and returns the new
    /// block's nonzero pointer.
    pub fn allocate(&mut self, size: usize) -> (p: u64)
        requires
            old(self).initialized(),
            old(self).tokens() < usize::MAX,
        ensures
            p != 0,
            p == old(self).tokens() + 1,
            final(self).valid(p),
            final(self).block(p) == Seq::new(size as nat, |i: int| 0u8),
            final(self).others_kept(old(self), p),
            final(self).tokens() == old(self).tokens() + 1,
            final(self).initialized(),
            final(self).growable() == old(self).growable(),
    {
        self.heap.allocate(0, size)
    }

    /// Allocates `size` bytes with the zero-fill flag set.
    pub fn alloc_zeroed(&mut self, size: usize) -> (p: u64)
        requires
            old(self).initialized(),
            old(self).tokens() < usize::MAX,
        ensures
            p != 0,
            p == old(self).tokens() + 1,
            final(self).valid(p),
            final(self).block(p) == Seq::new(size as nat, |i: int| 0u8),
            final(self).others_kept(old(self), p),
            final(self).tokens() == old(self).tokens() + 1,
            final(self).initialized(),
            final(self).growable() == old(self).growable(),
    {
        self.heap.allocate(HEAP_ZERO_MEMORY, size)
    }

    /// Releases the block named by `ptr`. An invalid pointer leaves the
    /// heap unchanged, as the native free primitive merely fails.
    pub fn dealloc(&mut self, ptr: u64)
        requires
            old(self).initialized(),
        ensures
            !final(self).valid(ptr),
            final(self).others_kept(old(self), ptr),
            final(self).tokens() == old(self).tokens(),
            final(self).initialized(),
            final(self).growable() == old(self).growable(),
    {
        let _ = self.heap.free(ptr);
    }

    /// Resizes the block named by `ptr` to `new_size` bytes. The block may
    /// move: the returned pointer names a block whose leading bytes common
    /// to both sizes are those of the old block, any grown tail is zero,
    /// and `ptr` is dead afterwards. Returns zero, changing nothing, when
    /// `ptr` was not live.
    pub fn realloc(&mut self, ptr: u64, new_size: usize) -> (q: u64)
        requires
            old(self).initialized(),
            old(self).tokens() < usize::MAX,
        ensures
            final(self).initialized(),
            final(self).growable() == old(self).growable(),
            !old(self).valid(ptr) ==> q == 0 && *final(self) == *old(self),
            old(self).valid(ptr) ==> {
                &&& q == old(self).tokens() + 1
                &&& q != ptr
                &&& final(self).valid(q)
                &&& !final(self).valid(ptr)
                &&& final(self).block(q).len() == new_size
                &&& (forall|i: int|
                    0 <= i < new_size ==> final(self).block(q)[i] == (if i < old(self).block(
                        ptr,
                    ).len() {
                        old(self).block(ptr)[i]
                    } else {
                        0u8
                    }))
                &&& (forall|r: u64|
                    r != ptr && r != q ==> (final(self).valid(r) <==> old(self).valid(r)) && (old(
                        self,
                    ).valid(r) ==> final(self).block(r) == old(self).block(r)))
                &&& final(self).tokens() == old(self).tokens() + 1
            },
    {
        self.heap.reallocate(ptr, new_size)
    }

    /// Reads one byte of a live block.
    pub fn read_byte(&self, ptr: u64, off: usize) -> (v: u8)
        requires
            self.valid(ptr),
            off < self.block(ptr).len(),
        ensures
            v == self.block(ptr)[off as int],
    {
        self.heap.read_byte(ptr, off)
    }

    /// Writes one byte of a live block; everything else is kept.
    pub fn write_byte(&mut self, ptr: u64, off: usize, v: u8)
        requires
            old(self).valid(ptr),
            off < old(self).block(ptr).len(),
        ensures
            final(self).valid(ptr),
            final(self).block(ptr) == old(self).block(ptr).update(off as int, v),
            final(self).others_kept(old(self), ptr),
            final(self).tokens() == old(self).tokens(),
            final(self).initialized(),
            final(self).growable() == old(self).growable(),
    {
        self.heap.write_byte(ptr, off, v)
    }
}

} // verus!
