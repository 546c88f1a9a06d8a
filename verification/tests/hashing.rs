use rustic64::utils::dbj2_hash;
use rustic64::utils::get_cstr_len;

fn wide_bytes(s: &str) -> Vec<u8> {
    let mut out = Vec::new();
    for b in s.bytes() {
        out.push(b);
        out.push(0);
    }
    out
}

#[test]
fn empty_input_yields_the_seed() {
    assert_eq!(dbj2_hash(&[]), 5381);
}

#[test]
fn one_byte_formula() {
    assert_eq!(dbj2_hash(b"A"), 5381 * 33 + 0x41);
    assert_eq!(dbj2_hash(b"a"), 5381 * 33 + 0x41);
}

#[test]
fn known_module_digests() {
    assert_eq!(dbj2_hash(b"ntdll.dll"), 0x1edab0ed);
    assert_eq!(dbj2_hash(b"KERNEL32.DLL"), 0x6ddb9555);
}

#[test]
fn known_export_digests() {
    assert_eq!(dbj2_hash(b"RtlCreateHeap"), 0xe1af6849);
    assert_eq!(dbj2_hash(b"RtlAllocateHeap"), 0x3be94c5a);
    assert_eq!(dbj2_hash(b"RtlFreeHeap"), 0x73a9e4d7);
    assert_eq!(dbj2_hash(b"RtlDestroyHeap"), 0xceb5349f);
    assert_eq!(dbj2_hash(b"RtlReAllocateHeap"), 0xaf740371);
    assert_eq!(dbj2_hash(b"NtTerminateProcess"), 0x4ed9dd4f);
    assert_eq!(dbj2_hash(b"WriteFile"), 0xf1d207d0);
}

#[test]
fn ascii_case_is_folded() {
    assert_eq!(dbj2_hash(b"NtDlL.dLl"), dbj2_hash(b"NTDLL.DLL"));
    assert_eq!(dbj2_hash(b"writefile"), dbj2_hash(b"WRITEFILE"));
    assert_eq!(dbj2_hash(b"ntdll.dll"), 0x1edab0ed);
    assert_eq!(dbj2_hash(b"NTDLL.DLL"), 0x1edab0ed);
}

#[test]
fn zero_bytes_are_skipped_not_terminators() {
    assert_eq!(dbj2_hash(&[0x41, 0x00, 0x42, 0x00, 0x00]), dbj2_hash(b"AB"));
    assert_eq!(dbj2_hash(&[0x00, 0x00]), 5381);
}

#[test]
fn wide_encoding_hashes_like_narrow() {
    assert_eq!(dbj2_hash(&wide_bytes("ntdll.dll")), dbj2_hash(b"NTDLL.DLL"));
    assert_eq!(dbj2_hash(&wide_bytes("ntdll.dll")), 0x1edab0ed);
    assert_eq!(dbj2_hash(&wide_bytes("WriteFile")), dbj2_hash(b"writefile"));
}

#[test]
fn cstr_len_counts_to_first_zero() {
    assert_eq!(get_cstr_len(&[b'F', b'o', b'o', 0, b'x']), 3);
    assert_eq!(get_cstr_len(&[0]), 0);
    assert_eq!(get_cstr_len(&[1, 2, 3, 0]), 3);
}
