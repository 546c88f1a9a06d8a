//! The process-wide state block and the capability table it carries.
//!
//! Exactly one `Instance` is meant to exist per process. It is built before
//! any heap exists, so it holds only plain words: a magic tag that is the
//! sole integrity check available to the locator, the native heap handle,
//! and the table of resolved function addresses. A resolved address is a
//! raw word; the calling convention behind it is the caller's contract, not
//! recorded here.

use vstd::prelude::*;

verus! {

/// Tag identifying a published `Instance`; the only integrity check the
/// discovery channel offers.
pub const INSTANCE_MAGIC: u32 = 0x17171717;

/// Canonical digest of the loader name of the native-layer module.
pub const NTDLL_DBJ2: u32 = 0x1edab0ed;

/// Canonical digest of the heap-create primitive's name.
pub const RTL_CREATE_HEAP_H: u32 = 0xe1af6849;

/// Canonical digest of the heap-allocate primitive's name.
pub const RTL_ALLOCATE_HEAP_H: u32 = 0x3be94c5a;

/// Canonical digest of the heap-free primitive's name.
pub const RTL_FREE_HEAP_H: u32 = 0x73a9e4d7;

/// Canonical digest of the heap-destroy primitive's name.
pub const RTL_DESTROY_HEAP_H: u32 = 0xceb5349f;

/// Canonical digest of the heap-reallocate primitive's name.
pub const RTL_REALLOCATE_HEAP_H: u32 = 0xaf740371;

/// Canonical digest of the process-termination primitive's name.
pub const NT_TERMINATE_PROCESS_H: u32 = 0x4ed9dd4f;

/// Canonical digest of the loader name of the I/O-layer module.
pub const KERNEL32_DBJ2: u32 = 0x6ddb9555;

/// Canonical digest of the write primitive's name.
pub const WRITE_FILE_DBJ2: u32 = 0xf1d207d0;

/// Resolved addresses of the native-layer primitives. A zero address means
/// the name was not resolved; callers must not invoke it.
#[derive(Clone, Copy, PartialEq, Eq, Structural)]
pub struct Ntdll {
    pub module_base: u64,
    pub rtl_create_heap: u64,
    pub rtl_allocate_heap: u64,
    pub rtl_free_heap: u64,
    pub rtl_re_allocate_heap: u64,
    pub rtl_destroy_heap: u64,
    pub nt_terminate_process: u64,
}

impl Ntdll {
    /// The unresolved table, for speaking of `Ntdll::new` in contracts.
    pub open spec fn new_spec() -> Ntdll {
        Ntdll {
            module_base: 0,
            rtl_create_heap: 0,
            rtl_allocate_heap: 0,
            rtl_free_heap: 0,
            rtl_re_allocate_heap: 0,
            rtl_destroy_heap: 0,
            nt_terminate_process: 0,
        }
    }

    /// A table with every address still unresolved.
    pub fn new() -> (r: Ntdll)
        ensures
            r == (Ntdll {
                module_base: 0,
                rtl_create_heap: 0,
                rtl_allocate_heap: 0,
                rtl_free_heap: 0,
                rtl_re_allocate_heap: 0,
                rtl_destroy_heap: 0,
                nt_terminate_process: 0,
            }),
    {
        Ntdll {
            module_base: 0,
            rtl_create_heap: 0,
            rtl_allocate_heap: 0,
            rtl_free_heap: 0,
            rtl_re_allocate_heap: 0,
            rtl_destroy_heap: 0,
            nt_terminate_process: 0,
        }
    }
}

/// The singleton state block: magic tag, native heap handle, and the
/// resolved function table.
#[derive(Clone, Copy, PartialEq, Eq, Structural)]
pub struct Instance {
    pub magic: u32,
    pub heap_handle: u64,
    pub ntdll: Ntdll,
    pub kernel32_base: u64,
    pub write_file: u64,
}

impl Instance {
    /// The fresh state block, for speaking of `Instance::new` in
    /// contracts.
    pub open spec fn initial() -> Instance {
        Instance {
            magic: INSTANCE_MAGIC,
            heap_handle: 0,
            ntdll: Ntdll::new_spec(),
            kernel32_base: 0,
            write_file: 0,
        }
    }

    /// A fresh state block: tagged with the magic constant, nothing yet
    /// resolved, no heap handle.
    pub fn new() -> (r: Instance)
        ensures
            r == Instance::initial(),
    {
        Instance {
            magic: INSTANCE_MAGIC,
            heap_handle: 0,
            ntdll: Ntdll::new(),
            kernel32_base: 0,
            write_file: 0,
        }
    }

    /// The stored native heap handle.
    pub fn heap_handle(&self) -> (r: u64)
        ensures
            r == self.heap_handle,
    {
        self.heap_handle
    }

    /// Stores the native heap handle; every other field is kept.
    pub fn set_heap_handle(&mut self, handle: u64)
        ensures
            *final(self) == (Instance { heap_handle: handle, ..*old(self) }),
    {
        self.heap_handle = handle;
    }
}

} // verus!
