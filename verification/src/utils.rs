//! The canonical name digest and byte-string helpers.
//!
//! Every module and export lookup in this library goes through one hash:
//! a DJB2 variant that folds ASCII lowercase to uppercase and skips zero
//! bytes outright. Skipping zeros makes the 8-bit and the zero-interleaved
//! (wide) encoding of the same text hash identically; folding makes the
//! lookup case-insensitive. Both rules are stated here as laws.

use vstd::prelude::*;

verus! {

/// Seed of the canonical digest.
pub const HASH_SEED: u32 = 5381;

/// ASCII lowercase letters fold to uppercase; every other byte is kept.
pub open spec fn fold_up(b: u8) -> u8 {
    if 0x61 <= b && b <= 0x7a {
        (b - 0x20) as u8
    } else {
        b
    }
}

/// One update step of the digest: a zero byte is skipped, not mixed in;
/// any other byte is case-folded and mixed as `h * 33 + byte` modulo 2^32.
pub open spec fn hash_step(h: u32, b: u8) -> u32 {
    if b == 0 {
        h
    } else {
        (((h as int) * 33 + fold_up(b) as int) % 0x1_0000_0000) as u32
    }
}

/// The canonical digest of a byte sequence.
pub open spec fn hash_of(s: Seq<u8>) -> u32
    decreases s.len(),
{
    if s.len() == 0 {
        HASH_SEED
    } else {
        hash_step(hash_of(s.drop_last()), s.last())
    }
}

/// Computes the canonical digest of `buffer`.
pub fn dbj2_hash(buffer: &[u8]) -> (h: u32)
    ensures
        h == hash_of(buffer@),
{
    let mut hsh: u32 = HASH_SEED;
    let mut iter: usize = 0;
    while iter < buffer.len()
        invariant
            iter <= buffer@.len(),
            hsh == hash_of(buffer@.take(iter as int)),
        decreases buffer@.len() - iter,
    {
        let mut cur: u8 = buffer[iter];
        proof {
            assert(buffer@.take(iter as int + 1).drop_last() =~= buffer@.take(iter as int));
            assert(buffer@.take(iter as int + 1).last() == buffer@[iter as int]);
        }
        if cur != 0 {
            if cur >= 0x61 && cur <= 0x7a {
                cur = cur - 0x20;
            }
            let mixed: u64 = (hsh as u64) * 33 + (cur as u64);
            hsh = (mixed % 0x1_0000_0000) as u32;
        }
        iter = iter + 1;
    }
    proof {
        assert(buffer@.take(buffer@.len() as int) =~= buffer@);
    }
    hsh
}

/// Two bytes are equal up to ASCII case: equal outright, or the same
/// letter in the two cases.
pub open spec fn ascii_case_eq(x: u8, y: u8) -> bool {
    x == y || (0x61 <= x && x <= 0x7a && y == x - 0x20) || (0x61 <= y && y <= 0x7a && x == y
        - 0x20)
}

/// Two byte sequences differ at most by ASCII case.
pub open spec fn same_up_to_ascii_case(a: Seq<u8>, b: Seq<u8>) -> bool {
    a.len() == b.len() && (forall|i: int| 0 <= i < a.len() ==> ascii_case_eq(a[i], b[i]))
}

/// Law: byte sequences differing only by ASCII case hash alike.
pub proof fn lemma_hash_ascii_case_insensitive(a: Seq<u8>, b: Seq<u8>)
    requires
        same_up_to_ascii_case(a, b),
    ensures
        hash_of(a) == hash_of(b),
    decreases a.len(),
{
    if a.len() > 0 {
        assert(ascii_case_eq(a.last(), b.last()));
        assert(same_up_to_ascii_case(a.drop_last(), b.drop_last())) by {
            assert forall|i: int| 0 <= i < a.drop_last().len() implies ascii_case_eq(
                a.drop_last()[i],
                b.drop_last()[i],
            ) by {
                assert(ascii_case_eq(a[i], b[i]));
            }
        }
        lemma_hash_ascii_case_insensitive(a.drop_last(), b.drop_last());
        assert(fold_up(a.last()) == fold_up(b.last()));
    }
}

/// The zero-interleaved (wide) encoding: each byte followed by a zero byte.
pub open spec fn wide(s: Seq<u8>) -> Seq<u8>
    decreases s.len(),
{
    if s.len() == 0 {
        Seq::empty()
    } else {
        wide(s.drop_last()).push(s.last()).push(0u8)
    }
}

/// Law: a byte sequence and its wide encoding hash alike.
pub proof fn lemma_hash_wide(s: Seq<u8>)
    ensures
        hash_of(wide(s)) == hash_of(s),
    decreases s.len(),
{
    if s.len() == 0 {
        assert(wide(s) =~= Seq::<u8>::empty());
    } else {
        lemma_hash_wide(s.drop_last());
        let v = wide(s.drop_last()).push(s.last());
        let w = v.push(0u8);
        assert(wide(s) == w);
        assert(w.last() == 0u8);
        assert(w.drop_last() =~= v);
        assert(v.last() == s.last());
        assert(v.drop_last() =~= wide(s.drop_last()));
        assert(hash_of(w) == hash_step(hash_of(v), 0u8));
    }
}

/// Law: the wide encoding of one casing hashes like any other casing of
/// the same text, so a narrow uppercase name and a wide lowercase one
/// resolve to the same digest.
pub proof fn lemma_hash_wide_case_insensitive(a: Seq<u8>, b: Seq<u8>)
    requires
        same_up_to_ascii_case(a, b),
    ensures
        hash_of(wide(a)) == hash_of(b),
{
    lemma_hash_wide(a);
    lemma_hash_ascii_case_insensitive(a, b);
}

/// Length of a zero-terminated byte string: the count of bytes before the
/// first zero byte. The terminator must be present in the buffer.
pub fn get_cstr_len(bytes: &[u8]) -> (n: usize)
    requires
        exists|i: int| 0 <= i < bytes@.len() && bytes@[i] == 0,
    ensures
        n < bytes@.len(),
        bytes@[n as int] == 0,
        forall|i: int| 0 <= i < n ==> bytes@[i] != 0,
{
    let mut n: usize = 0;
    while bytes[n] != 0
        invariant
            exists|i: int| 0 <= i < bytes@.len() && bytes@[i] == 0,
            n < bytes@.len(),
            forall|i: int| 0 <= i < n ==> bytes@[i] != 0,
        decreases bytes@.len() - n,
    {
        n = n + 1;
        proof {
            let t = choose|i: int| 0 <= i < bytes@.len() && bytes@[i] == 0;
            assert(n <= t);
        }
    }
    n
}

} // verus!
