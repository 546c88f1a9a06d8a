//! Export resolution over a module's in-memory image.
//!
//! A loaded module is modelled as the byte sequence of its mapped image, so
//! relative virtual addresses index directly into the sequence. The parser
//! walks the image headers to the export data directory, scans the parallel
//! name-pointer and ordinal tables for a name whose canonical digest matches
//! the target, and returns the absolute address of the matching export. It
//! performs no writes and needs no allocator: it only reads the image.
//!
//! Forwarded exports are not followed, and ordinal-only exports (which have
//! no name) are unreachable by design. A module without a well-formed export
//! directory yields no address at all.

use vstd::prelude::*;

use crate::utils::dbj2_hash;
use crate::utils::hash_of;

verus! {

/// The 16-bit little-endian value stored at `off`.
pub open spec fn le16_at(s: Seq<u8>, off: int) -> u16 {
    (s[off] as int + s[off + 1] as int * 0x100) as u16
}

/// The 32-bit little-endian value stored at `off`.
pub open spec fn le32_at(s: Seq<u8>, off: int) -> u32 {
    (s[off] as int + s[off + 1] as int * 0x100 + s[off + 2] as int * 0x1_0000 + s[off + 3] as int
        * 0x100_0000) as u32
}

/// Reads the 16-bit little-endian value at `off`.
pub fn read_u16(img: &[u8], off: usize) -> (r: u16)
    requires
        off + 2 <= img@.len(),
    ensures
        r == le16_at(img@, off as int),
{
    img[off] as u16 + (img[off + 1] as u16) * 0x100
}

/// Reads the 32-bit little-endian value at `off`.
pub fn read_u32(img: &[u8], off: usize) -> (r: u32)
    requires
        off + 4 <= img@.len(),
    ensures
        r == le32_at(img@, off as int),
{
    img[off] as u32 + (img[off + 1] as u32) * 0x100 + (img[off + 2] as u32) * 0x1_0000 + (img[off
        + 3] as u32) * 0x100_0000
}

/// Position of the first zero byte at or after `off`, if any.
pub open spec fn first_zero_from(s: Seq<u8>, off: int) -> Option<int>
    decreases s.len() - off,
{
    if off < 0 || off >= s.len() {
        None
    } else if s[off] == 0 {
        Some(off)
    } else {
        first_zero_from(s, off + 1)
    }
}

/// The zero-terminated byte string starting at `off`: the bytes up to,
/// not including, the first zero byte; empty when no terminator exists.
pub open spec fn cstr_at(s: Seq<u8>, off: int) -> Seq<u8> {
    match first_zero_from(s, off) {
        Some(e) => s.subrange(off, e),
        None => Seq::empty(),
    }
}

pub proof fn lemma_first_zero_props(s: Seq<u8>, off: int)
    requires
        0 <= off,
    ensures
        match first_zero_from(s, off) {
            Some(e) => off <= e < s.len() && s[e] == 0 && (forall|k: int|
                off <= k < e ==> s[k] != 0),
            None => forall|k: int| off <= k < s.len() ==> s[k] != 0,
        },
    decreases s.len() - off,
{
    if off < s.len() && s[off] != 0 {
        lemma_first_zero_props(s, off + 1);
    }
}

/// Finds the first zero byte at or after `start`.
pub fn find_zero(bytes: &[u8], start: usize) -> (r: Option<usize>)
    ensures
        match r {
            Some(e) => first_zero_from(bytes@, start as int) == Some(e as int),
            None => first_zero_from(bytes@, start as int) is None,
        },
{
    if start >= bytes.len() {
        return None;
    }
    let mut j: usize = start;
    while j < bytes.len()
        invariant
            start <= j,
            j <= bytes@.len(),
            first_zero_from(bytes@, start as int) == first_zero_from(bytes@, j as int),
        decreases bytes@.len() - j,
    {
        if bytes[j] == 0 {
            return Some(j);
        }
        j = j + 1;
    }
    None
}

/// Offset of the export directory inside the image, reached by walking the
/// image headers: signature words, 64-bit optional-header magic, and the
/// first data-directory entry. Any violation of the layout, a missing
/// export directory, or one extending past the image yields nothing.
pub open spec fn export_dir_offset(s: Seq<u8>) -> Option<int> {
    if s.len() < 0x40 {
        None
    } else if le16_at(s, 0) != 0x5a4d {
        None
    } else {
        let pe = le32_at(s, 0x3c) as int;
        if pe + 144 > s.len() {
            None
        } else if le32_at(s, pe) != 0x4550 {
            None
        } else if le16_at(s, pe + 24) != 0x20b {
            None
        } else if le32_at(s, pe + 132) < 1 {
            None
        } else {
            let edir = le32_at(s, pe + 136) as int;
            if edir == 0 {
                None
            } else if edir + 40 > s.len() {
                None
            } else {
                Some(edir)
            }
        }
    }
}

/// Outcome of scanning the export name table for a digest.
pub enum NameScan {
    /// A name matched; its ordinal-table entry.
    Found(u16),
    /// Every name was examined and none matched.
    Absent,
    /// A table entry or a name reached outside the image.
    Malformed,
}

/// Scans name-table entries `i..n` for the first name whose canonical
/// digest equals `target`, yielding the matching ordinal.
pub open spec fn scan_names(s: Seq<u8>, names: int, ords: int, n: int, i: int, target: u32) -> NameScan
    decreases n - i,
{
    if i < 0 || i >= n {
        NameScan::Absent
    } else if names + 4 * i + 4 > s.len() || ords + 2 * i + 2 > s.len() {
        NameScan::Malformed
    } else {
        let nrva = le32_at(s, names + 4 * i) as int;
        if first_zero_from(s, nrva) is None {
            NameScan::Malformed
        } else if hash_of(cstr_at(s, nrva)) == target {
            NameScan::Found(le16_at(s, ords + 2 * i))
        } else {
            scan_names(s, names, ords, n, i + 1, target)
        }
    }
}

/// The absolute address of the export of `s` whose name digest is `target`:
/// the first matching name's ordinal indexes the address table, and the
/// relative offset found there is added to `base`. Nothing is returned for
/// an image without a well-formed export directory, an absent name, a
/// malformed table, an ordinal outside the address table, or a sum that
/// does not fit the address width.
pub open spec fn find_export_spec(s: Seq<u8>, base: u64, target: u32) -> Option<u64> {
    match export_dir_offset(s) {
        None => None,
        Some(edir) => {
            let n_funcs = le32_at(s, edir + 20) as int;
            let n_names = le32_at(s, edir + 24) as int;
            let funcs = le32_at(s, edir + 28) as int;
            let names = le32_at(s, edir + 32) as int;
            let ords = le32_at(s, edir + 36) as int;
            match scan_names(s, names, ords, n_names, 0, target) {
                NameScan::Found(ord) => {
                    if ord < n_funcs && funcs + 4 * ord + 4 <= s.len() {
                        let rva = le32_at(s, funcs + 4 * ord) as int;
                        if base + rva <= u64::MAX {
                            Some((base + rva) as u64)
                        } else {
                            None
                        }
                    } else {
                        None
                    }
                },
                _ => None,
            }
        },
    }
}

/// Resolves an export of the mapped image `img` (based at `base`) by the
/// canonical digest of its name.
#[verifier::loop_isolation(false)]
pub fn find_export(img: &[u8], base: u64, target: u32) -> (r: Option<u64>)
    ensures
        r == find_export_spec(img@, base, target),
{
    let len: u64 = img.len() as u64;
    if img.len() < 0x40 {
        return None;
    }
    if read_u16(img, 0) != 0x5a4d {
        return None;
    }
    let pe64: u64 = read_u32(img, 0x3c) as u64;
    if pe64 + 144 > len {
        return None;
    }
    let pe: usize = pe64 as usize;
    if read_u32(img, pe) != 0x4550 {
        return None;
    }
    if read_u16(img, pe + 24) != 0x20b {
        return None;
    }
    if read_u32(img, pe + 132) < 1 {
        return None;
    }
    let edir64: u64 = read_u32(img, pe + 136) as u64;
    if edir64 == 0 {
        return None;
    }
    if edir64 + 40 > len {
        return None;
    }
    let edir: usize = edir64 as usize;
    let n_funcs: u32 = read_u32(img, edir + 20);
    let n_names: u32 = read_u32(img, edir + 24);
    let funcs64: u64 = read_u32(img, edir + 28) as u64;
    let names64: u64 = read_u32(img, edir + 32) as u64;
    let ords64: u64 = read_u32(img, edir + 36) as u64;
    let ghost s = img@;
    let mut i: u32 = 0;
    while i < n_names
        invariant
            i <= n_names,
            scan_names(s, names64 as int, ords64 as int, n_names as int, 0, target)
                == scan_names(s, names64 as int, ords64 as int, n_names as int, i as int, target),
        decreases n_names - i,
    {
        let name_entry: u64 = names64 + 4 * (i as u64);
        let ord_entry: u64 = ords64 + 2 * (i as u64);
        if name_entry + 4 > len || ord_entry + 2 > len {
            return None;
        }
        let nrva: u32 = read_u32(img, name_entry as usize);
        match find_zero(img, nrva as usize) {
            None => {
                return None;
            },
            Some(e) => {
                proof {
                    lemma_first_zero_props(s, nrva as int);
                }
                let name = vstd::slice::slice_subrange(img, nrva as usize, e);
                let h = dbj2_hash(name);
                proof {
                    assert(name@ == cstr_at(s, nrva as int));
                }
                if h == target {
                    let ord: u16 = read_u16(img, ord_entry as usize);
                    assert(scan_names(s, names64 as int, ords64 as int, n_names as int, i as int, target)
                        == NameScan::Found(ord));
                    if (ord as u32) < n_funcs {
                        let func_entry: u64 = funcs64 + 4 * (ord as u64);
                        if func_entry + 4 <= len {
                            let rva: u64 = read_u32(img, func_entry as usize) as u64;
                            if base <= u64::MAX - rva {
                                return Some(base + rva);
                            }
                        }
                    }
                    return None;
                }
            },
        }
        i = i + 1;
    }
    None
}

} // verus!
