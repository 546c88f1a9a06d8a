use rustic64::allocator::BOOTSTRAP_HEAP_HANDLE;
use rustic64::allocator::NtHeapAlloc;
use rustic64::boot::initialize;
use rustic64::boot::resolve;
use rustic64::instance::INSTANCE_MAGIC;
use rustic64::instance::Instance;
use rustic64::instance::NTDLL_DBJ2;
use rustic64::pe::find_export;
use rustic64::process::ModuleRecord;
use rustic64::process::ProcessEnvironment;
use rustic64::process::Slot;
use rustic64::process::find_module;
use rustic64::process::instance_at;
use rustic64::process::locate_instance;
use rustic64::process::publish_instance;
use rustic64::utils::dbj2_hash;

fn put_u16(img: &mut Vec<u8>, off: usize, v: u16) {
    img[off] = v as u8;
    img[off + 1] = (v >> 8) as u8;
}

fn put_u32(img: &mut Vec<u8>, off: usize, v: u32) {
    img[off] = v as u8;
    img[off + 1] = (v >> 8) as u8;
    img[off + 2] = (v >> 16) as u8;
    img[off + 3] = (v >> 24) as u8;
}

/// A minimal synthetic 64-bit image: headers at the usual places, one
/// export directory at 0x200, address table at 0x300, name-pointer table
/// at 0x400, ordinal table at 0x500, names from 0x600 on. Name `i` gets
/// ordinal `i`.
fn build_image(exports: &[(&[u8], u32)]) -> Vec<u8> {
    let n = exports.len();
    let mut img = vec![0u8; 0x800];
    put_u16(&mut img, 0, 0x5a4d);
    put_u32(&mut img, 0x3c, 0x80);
    put_u32(&mut img, 0x80, 0x4550);
    put_u16(&mut img, 0x80 + 24, 0x20b);
    put_u32(&mut img, 0x80 + 132, 16);
    put_u32(&mut img, 0x80 + 136, 0x200);
    put_u32(&mut img, 0x80 + 140, 0x100);
    put_u32(&mut img, 0x200 + 20, n as u32);
    put_u32(&mut img, 0x200 + 24, n as u32);
    put_u32(&mut img, 0x200 + 28, 0x300);
    put_u32(&mut img, 0x200 + 32, 0x400);
    put_u32(&mut img, 0x200 + 36, 0x500);
    let mut str_off: usize = 0x600;
    for (i, (name, rva)) in exports.iter().enumerate() {
        put_u32(&mut img, 0x300 + 4 * i, *rva);
        put_u32(&mut img, 0x400 + 4 * i, str_off as u32);
        put_u16(&mut img, 0x500 + 2 * i, i as u16);
        for &b in name.iter() {
            img[str_off] = b;
            str_off += 1;
        }
        img[str_off] = 0;
        str_off += 1;
    }
    img
}

fn wide_bytes(s: &str) -> Vec<u8> {
    let mut out = Vec::new();
    for b in s.bytes() {
        out.push(b);
        out.push(0);
    }
    out
}

#[test]
fn absent_module_hash_finds_nothing() {
    let env = ProcessEnvironment {
        modules: vec![
            ModuleRecord { base: 0x1000, name: wide_bytes("ntdll.dll"), image: vec![] },
            ModuleRecord { base: 0x2000, name: wide_bytes("KERNEL32.DLL"), image: vec![] },
        ],
        heap_slots: vec![],
    };
    assert_eq!(find_module(&env, dbj2_hash(b"ABSENT.DLL")), None);
    assert_eq!(find_module(&env, NTDLL_DBJ2), Some(0x1000));
    assert_eq!(find_module(&env, dbj2_hash(b"kernel32.dll")), Some(0x2000));
}

#[test]
fn empty_module_list_finds_nothing() {
    let env = ProcessEnvironment { modules: vec![], heap_slots: vec![] };
    assert_eq!(find_module(&env, NTDLL_DBJ2), None);
}

#[test]
fn first_matching_module_wins() {
    let env = ProcessEnvironment {
        modules: vec![
            ModuleRecord { base: 0xaaaa, name: b"same.dll".to_vec(), image: vec![] },
            ModuleRecord { base: 0xbbbb, name: b"SAME.DLL".to_vec(), image: vec![] },
        ],
        heap_slots: vec![],
    };
    assert_eq!(find_module(&env, dbj2_hash(b"same.dll")), Some(0xaaaa));
}

#[test]
fn export_found_by_digest_at_base_plus_offset() {
    let img = build_image(&[(b"Foo", 0x1234)]);
    let base: u64 = 0x0010_0000;
    assert_eq!(find_export(&img, base, dbj2_hash(b"FOO")), Some(base + 0x1234));
    assert_eq!(find_export(&img, base, dbj2_hash(b"BAR")), None);
}

#[test]
fn export_lookup_is_case_insensitive() {
    let img = build_image(&[(b"Foo", 0x40)]);
    assert_eq!(find_export(&img, 0, dbj2_hash(b"foo")), Some(0x40));
    assert_eq!(find_export(&img, 0, dbj2_hash(b"fOO")), Some(0x40));
}

#[test]
fn ordinal_indexes_the_address_table() {
    let mut img = build_image(&[(b"Alpha", 0x1111), (b"Beta", 0x2222)]);
    put_u16(&mut img, 0x500, 1);
    put_u16(&mut img, 0x502, 0);
    assert_eq!(find_export(&img, 0, dbj2_hash(b"ALPHA")), Some(0x2222));
    assert_eq!(find_export(&img, 0, dbj2_hash(b"BETA")), Some(0x1111));
}

#[test]
fn module_without_export_directory_yields_null() {
    let mut img = build_image(&[(b"Foo", 0x1234)]);
    put_u32(&mut img, 0x80 + 136, 0);
    assert_eq!(find_export(&img, 0, dbj2_hash(b"FOO")), None);
}

#[test]
fn truncated_or_foreign_bytes_yield_null() {
    assert_eq!(find_export(&[], 0, 1), None);
    assert_eq!(find_export(&[0u8; 0x20], 0, 1), None);
    let zeros = vec![0u8; 0x800];
    assert_eq!(find_export(&zeros, 0, 1), None);
}

#[test]
fn resolve_joins_module_and_export_lookup() {
    let img = build_image(&[(b"RtlCreateHeap", 0x1000)]);
    let env = ProcessEnvironment {
        modules: vec![ModuleRecord { base: 0x5000_0000, name: wide_bytes("ntdll.dll"), image: img }],
        heap_slots: vec![],
    };
    assert_eq!(resolve(&env, NTDLL_DBJ2, dbj2_hash(b"RTLCREATEHEAP")), 0x5000_1000);
    assert_eq!(resolve(&env, NTDLL_DBJ2, dbj2_hash(b"MISSING")), 0);
    assert_eq!(resolve(&env, dbj2_hash(b"OTHER.DLL"), dbj2_hash(b"RTLCREATEHEAP")), 0);
}

#[test]
fn published_block_is_located_by_tag() {
    let mut env = ProcessEnvironment { modules: vec![], heap_slots: vec![Slot::Null] };
    publish_instance(&mut env, Instance::new());
    let i = locate_instance(&env).expect("published block must be locatable");
    assert_eq!(i, 1);
    let inst = *instance_at(&env, i);
    assert_eq!(inst.magic, INSTANCE_MAGIC);
    let mut broken = inst;
    broken.magic = 0xdead_beef;
    env.heap_slots[i] = Slot::Block(broken);
    assert!(locate_instance(&env).is_none());
}

#[test]
fn locator_skips_nulls_and_mismatched_tags() {
    let mut wrong = Instance::new();
    wrong.magic = 0x0bad_0bad;
    let env = ProcessEnvironment {
        modules: vec![],
        heap_slots: vec![Slot::Null, Slot::Block(wrong), Slot::Block(Instance::new())],
    };
    assert_eq!(locate_instance(&env), Some(2));
}

#[test]
fn allocator_hands_out_zeroed_blocks() {
    let mut alloc = NtHeapAlloc::new();
    assert_eq!(alloc.handle(), 0);
    alloc.initialize();
    assert_eq!(alloc.handle(), BOOTSTRAP_HEAP_HANDLE);
    let p = alloc.allocate(8);
    assert_ne!(p, 0);
    for i in 0..8 {
        assert_eq!(alloc.read_byte(p, i), 0);
    }
    let q = alloc.alloc_zeroed(4);
    assert_ne!(q, 0);
    assert_ne!(p, q);
    for i in 0..4 {
        assert_eq!(alloc.read_byte(q, i), 0);
    }
    alloc.dealloc(p);
    alloc.dealloc(q);
}

#[test]
fn resize_preserves_the_leading_bytes() {
    let mut alloc = NtHeapAlloc::new();
    alloc.initialize();
    let p = alloc.allocate(64);
    assert_ne!(p, 0);
    for i in 0..64 {
        alloc.write_byte(p, i, (i as u8) ^ 0x5a);
    }
    let q = alloc.realloc(p, 256);
    assert_ne!(q, 0);
    assert_ne!(q, p);
    for i in 0..64 {
        assert_eq!(alloc.read_byte(q, i), (i as u8) ^ 0x5a);
    }
    for i in 64..256 {
        assert_eq!(alloc.read_byte(q, i), 0);
    }
    alloc.dealloc(q);
}

#[test]
fn resize_of_a_dead_pointer_returns_null() {
    let mut alloc = NtHeapAlloc::new();
    alloc.initialize();
    let p = alloc.allocate(16);
    alloc.dealloc(p);
    assert_eq!(alloc.realloc(p, 32), 0);
}

#[test]
fn end_to_end_bootstrap_yields_a_usable_heap() {
    let ntdll_base: u64 = 0x7ff8_0000_0000;
    let k32_base: u64 = 0x7ff8_1000_0000;
    let ntdll_img = build_image(&[
        (b"RtlCreateHeap", 0x1000),
        (b"RtlAllocateHeap", 0x2000),
        (b"RtlFreeHeap", 0x3000),
        (b"RtlReAllocateHeap", 0x4000),
        (b"RtlDestroyHeap", 0x5000),
        (b"NtTerminateProcess", 0x6000),
    ]);
    let k32_img = build_image(&[(b"WriteFile", 0x7000)]);
    let mut env = ProcessEnvironment {
        modules: vec![
            ModuleRecord { base: ntdll_base, name: wide_bytes("ntdll.dll"), image: ntdll_img },
            ModuleRecord { base: k32_base, name: wide_bytes("KERNEL32.DLL"), image: k32_img },
        ],
        heap_slots: vec![],
    };
    let mut alloc = initialize(&mut env);
    let i = locate_instance(&env).expect("bootstrap must publish a locatable block");
    let inst = *instance_at(&env, i);
    assert_eq!(inst.magic, INSTANCE_MAGIC);
    assert_eq!(inst.heap_handle, BOOTSTRAP_HEAP_HANDLE);
    assert_eq!(inst.ntdll.module_base, ntdll_base);
    assert_eq!(inst.ntdll.rtl_create_heap, ntdll_base + 0x1000);
    assert_eq!(inst.ntdll.rtl_allocate_heap, ntdll_base + 0x2000);
    assert_eq!(inst.ntdll.rtl_free_heap, ntdll_base + 0x3000);
    assert_eq!(inst.ntdll.rtl_re_allocate_heap, ntdll_base + 0x4000);
    assert_eq!(inst.ntdll.rtl_destroy_heap, ntdll_base + 0x5000);
    assert_eq!(inst.ntdll.nt_terminate_process, ntdll_base + 0x6000);
    assert_eq!(inst.kernel32_base, k32_base);
    assert_eq!(inst.write_file, k32_base + 0x7000);
    let p = alloc.allocate(16);
    assert_ne!(p, 0);
    alloc.dealloc(p);
}

#[test]
fn bootstrap_on_a_bare_environment_records_failed_resolutions_as_null() {
    let mut env = ProcessEnvironment { modules: vec![], heap_slots: vec![] };
    let _alloc = initialize(&mut env);
    let i = locate_instance(&env).expect("the block is published even when nothing resolves");
    let inst = *instance_at(&env, i);
    assert_eq!(inst.ntdll.module_base, 0);
    assert_eq!(inst.ntdll.rtl_create_heap, 0);
    assert_eq!(inst.write_file, 0);
    assert_eq!(inst.heap_handle, BOOTSTRAP_HEAP_HANDLE);
}
