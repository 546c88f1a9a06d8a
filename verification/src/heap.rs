//! A model of the native heap the resolved primitives manage.
//!
//! The bootstrap layer trusts the native heap to track block sizes and
//! placement; this model makes that bookkeeping explicit. A heap is a table
//! of blocks; a pointer is a nonzero token naming a block, zero standing
//! for the null pointer. Freed tokens are never reissued, so a stale
//! pointer stays invalid instead of silently aliasing a new block. The
//! model zero-initializes every block it hands out.

use vstd::prelude::*;

verus! {

/// Flag asking heap-create for a heap that grows on demand.
pub const HEAP_GROWABLE: u32 = 0x00000002;

/// Flag asking heap-allocate for zero-filled memory. The model heap
/// zero-initializes every block whether or not the flag is passed.
pub const HEAP_ZERO_MEMORY: u32 = 0x00000008;

/// A heap of the native layer: a growable table of blocks.
pub struct NativeHeap {
    growable: bool,
    blocks: Vec<Option<Vec<u8>>>,
}

impl NativeHeap {
    /// The heap was created with growable semantics.
    pub closed spec fn is_growable(&self) -> bool {
        self.growable
    }

    /// Count of block tokens handed out so far, freed ones included.
    pub closed spec fn tokens(&self) -> int {
        self.blocks@.len() as int
    }

    /// `p` names a live block.
    pub closed spec fn valid(&self, p: u64) -> bool {
        1 <= p <= self.blocks@.len() && self.blocks@[p - 1] is Some
    }

    /// Contents of the live block named by `p`.
    pub closed spec fn block(&self, p: u64) -> Seq<u8> {
        self.blocks@[p - 1].unwrap()@
    }

    /// Every block other than `p` is carried over unchanged from `prior`.
    pub open spec fn others_preserved(&self, prior: &NativeHeap, p: u64) -> bool {
        forall|q: u64|
            q != p ==> (self.valid(q) <==> prior.valid(q)) && (prior.valid(q) ==> self.block(q)
                == prior.block(q))
    }

    /// Creates a heap with no blocks, the model of the heap-create
    /// primitive. `flags` may ask for growable semantics.
    pub fn create(flags: u32) -> (h: NativeHeap)
        ensures
            h.is_growable() == (flags & HEAP_GROWABLE != 0),
            h.tokens() == 0,
            forall|q: u64| !h.valid(q),
    {
        NativeHeap { growable: flags & HEAP_GROWABLE != 0, blocks: Vec::new() }
    }

    /// Allocates a zero-initialized block of `size` bytes and returns its
    /// nonzero pointer token; the model of the heap-allocate primitive.
    /// The result is the same for every `flags` value: the model heap
    /// zero-fills with or without `HEAP_ZERO_MEMORY`.
    pub fn allocate(&mut self, flags: u32, size: usize) -> (p: u64)
        requires
            old(self).tokens() < usize::MAX,
        ensures
            p != 0,
            p == old(self).tokens() + 1,
            !old(self).valid(p),
            final(self).valid(p),
            final(self).block(p) == Seq::new(size as nat, |i: int| 0u8),
            final(self).others_preserved(old(self), p),
            final(self).tokens() == old(self).tokens() + 1,
            final(self).is_growable() == old(self).is_growable(),
    {
        let data = zero_vec(size);
        self.blocks.push(Some(data));
        proof {
            assert(final(self).block((old(self).tokens() + 1) as u64) =~= Seq::new(
                size as nat,
                |i: int| 0u8,
            ));
        }
        (self.blocks.len()) as u64
    }

    /// Releases the block named by `p`; reports whether `p` was live.
    /// The model of the heap-free primitive. An invalid pointer leaves the
    /// heap unchanged.
    pub fn free(&mut self, p: u64) -> (ok: bool)
        ensures
            ok == old(self).valid(p),
            !final(self).valid(p),
            final(self).others_preserved(old(self), p),
            final(self).tokens() == old(self).tokens(),
            final(self).is_growable() == old(self).is_growable(),
    {
        if p >= 1 && p <= self.blocks.len() as u64 {
            let idx = (p - 1) as usize;
            let live = self.blocks[idx].is_some();
            if live {
                self.blocks[idx] = None;
                return true;
            }
        }
        false
    }

    /// Moves the block named by `p` to a fresh block of `new_size` bytes:
    /// the leading bytes common to both sizes are preserved, any grown tail
    /// is zero, and the prior pointer is dead afterwards. Returns the new
    /// pointer token, or zero when `p` was not live. The model of the
    /// heap-reallocate primitive.
    pub fn reallocate(&mut self, p: u64, new_size: usize) -> (q: u64)
        requires
            old(self).tokens() < usize::MAX,
        ensures
            !old(self).valid(p) ==> q == 0 && *final(self) == *old(self),
            old(self).valid(p) ==> {
                &&& q == old(self).tokens() + 1
                &&& q != p
                &&& final(self).valid(q)
                &&& !final(self).valid(p)
                &&& final(self).block(q).len() == new_size
                &&& (forall|i: int|
                    0 <= i < new_size ==> final(self).block(q)[i] == (if i < old(self).block(
                        p,
                    ).len() {
                        old(self).block(p)[i]
                    } else {
                        0u8
                    }))
                &&& (forall|r: u64|
                    r != p && r != q ==> (final(self).valid(r) <==> old(self).valid(r)) && (old(
                        self,
                    ).valid(r) ==> final(self).block(r) == old(self).block(r)))
                &&& final(self).tokens() == old(self).tokens() + 1
                &&& final(self).is_growable() == old(self).is_growable()
            },
    {
        if !(p >= 1 && p <= self.blocks.len() as u64) {
            return 0;
        }
        let idx = (p - 1) as usize;
        let n_old: usize = match &self.blocks[idx] {
            Some(data) => data.len(),
            None => {
                return 0;
            },
        };
        let mut data: Vec<u8> = Vec::new();
        let mut i: usize = 0;
        while i < new_size
            invariant
                i <= new_size,
                *self == *old(self),
                idx == p - 1,
                old(self).valid(p),
                n_old == old(self).block(p).len(),
                data@.len() == i,
                forall|k: int|
                    0 <= k < i ==> data@[k] == (if k < old(self).block(p).len() {
                        old(self).block(p)[k]
                    } else {
                        0u8
                    }),
            decreases new_size - i,
        {
            if i < n_old {
                let b: u8 = match &self.blocks[idx] {
                    Some(old_data) => old_data[i],
                    None => vstd::pervasive::unreached(),
                };
                data.push(b);
            } else {
                data.push(0);
            }
            i = i + 1;
        }
        self.blocks[idx] = None;
        self.blocks.push(Some(data));
        (self.blocks.len()) as u64
    }

    /// Reads one byte of a live block.
    pub fn read_byte(&self, p: u64, off: usize) -> (v: u8)
        requires
            self.valid(p),
            off < self.block(p).len(),
        ensures
            v == self.block(p)[off as int],
    {
        let n = self.blocks.len();
        proof {
            assert(p - 1 < n);
        }
        let idx = (p - 1) as usize;
        match &self.blocks[idx] {
            Some(data) => data[off],
            None => vstd::pervasive::unreached(),
        }
    }

    /// Writes one byte of a live block; everything else is kept.
    pub fn write_byte(&mut self, p: u64, off: usize, v: u8)
        requires
            old(self).valid(p),
            off < old(self).block(p).len(),
        ensures
            final(self).valid(p),
            final(self).block(p) == old(self).block(p).update(off as int, v),
            final(self).others_preserved(old(self), p),
            final(self).tokens() == old(self).tokens(),
            final(self).is_growable() == old(self).is_growable(),
    {
        let n = self.blocks.len();
        proof {
            assert(p - 1 < n);
        }
        let idx = (p - 1) as usize;
        match &mut self.blocks[idx] {
            Some(data) => {
                data[off] = v;
            },
            None => {
                proof {
                    assert(false);
                }
            },
        }
    }
}

/// A vector of `n` zero bytes.
fn zero_vec(n: usize) -> (v: Vec<u8>)
    ensures
        v@ == Seq::new(n as nat, |i: int| 0u8),
{
    let mut v: Vec<u8> = Vec::new();
    let mut i: usize = 0;
    while i < n
        invariant
            i <= n,
            v@.len() == i,
            forall|k: int| 0 <= k < i ==> v@[k] == 0u8,
        decreases n - i,
    {
        v.push(0);
        i = i + 1;
    }
    proof {
        assert(v@ =~= Seq::new(n as nat, |i: int| 0u8));
    }
    v
}

} // verus!
