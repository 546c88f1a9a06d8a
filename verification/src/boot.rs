//! The bootstrap chain: locate, resolve, publish, stand up the heap.
//!
//! The initialization entry point builds the state block, publishes it
//! through the heap-slot table, resolves the native primitives by name
//! digest into the block's capability table, creates the bootstrap heap
//! and records its handle. A failed resolution is recorded as a zero
//! address, never reported: this layer targets only names it knows exist,
//! and a caller that invokes a zero address crashes the process — the
//! accepted failure mode of an environment with no unwinding support.

use vstd::prelude::*;

use crate::allocator::BOOTSTRAP_HEAP_HANDLE;
use crate::allocator::NtHeapAlloc;
use crate::instance::Instance;
use crate::instance::KERNEL32_DBJ2;
use crate::instance::NTDLL_DBJ2;
use crate::instance::NT_TERMINATE_PROCESS_H;
use crate::instance::Ntdll;
use crate::instance::RTL_ALLOCATE_HEAP_H;
use crate::instance::RTL_CREATE_HEAP_H;
use crate::instance::RTL_DESTROY_HEAP_H;
use crate::instance::RTL_FREE_HEAP_H;
use crate::instance::RTL_REALLOCATE_HEAP_H;
use crate::instance::WRITE_FILE_DBJ2;
use crate::pe::find_export;
use crate::pe::find_export_spec;
use crate::process::ModuleRecord;
use crate::process::ProcessEnvironment;
use crate::process::Slot;
use crate::process::find_module;
use crate::process::find_module_index;
use crate::process::find_module_spec;
use crate::process::first_module_from;
use crate::process::instance_at;
use crate::process::lemma_first_instance_char;
use crate::process::lemma_publish_locatable;
use crate::process::locate_instance;
use crate::process::locate_spec;
use crate::process::publish_instance;
use crate::process::slot_instance;
use crate::process::slot_is_instance;

verus! {

/// Base address recorded for a module resolved by digest: the base of the
/// first matching loaded module, or zero when none matches.
pub open spec fn module_base_spec(mods: Seq<ModuleRecord>, module_hash: u32) -> u64 {
    match find_module_spec(mods, module_hash) {
        Some(b) => b,
        None => 0,
    }
}

/// Address recorded for an export resolved by digests: the address of the
/// named export of the first module matching `module_hash`, or zero when
/// that module is absent or exports no matching name.
pub open spec fn resolve_spec(mods: Seq<ModuleRecord>, module_hash: u32, func_hash: u32) -> u64 {
    match first_module_from(mods, module_hash, 0) {
        None => 0,
        Some(i) => match find_export_spec(mods[i].image@, mods[i].base, func_hash) {
            None => 0,
            Some(a) => a,
        },
    }
}

/// Resolves an export by module digest and function digest. Zero stands
/// for a failed resolution; the caller must never invoke a zero address.
pub fn resolve(env: &ProcessEnvironment, module_hash: u32, func_hash: u32) -> (r: u64)
    ensures
        r == resolve_spec(env.modules@, module_hash, func_hash),
{
    proof {
        crate::process::lemma_first_module_props(env.modules@, module_hash, 0);
    }
    match find_module_index(env, module_hash) {
        None => 0,
        Some(i) => {
            let m = &env.modules[i];
            match find_export(m.image.as_slice(), m.base, func_hash) {
                None => 0,
                Some(a) => a,
            }
        },
    }
}

/// The state block after resolution: the capability table filled with the
/// addresses the digests resolve to in `mods`; tag and heap handle kept.
pub open spec fn resolved_instance(mods: Seq<ModuleRecord>, inst: Instance) -> Instance {
    Instance {
        magic: inst.magic,
        heap_handle: inst.heap_handle,
        ntdll: Ntdll {
            module_base: module_base_spec(mods, NTDLL_DBJ2),
            rtl_create_heap: resolve_spec(mods, NTDLL_DBJ2, RTL_CREATE_HEAP_H),
            rtl_allocate_heap: resolve_spec(mods, NTDLL_DBJ2, RTL_ALLOCATE_HEAP_H),
            rtl_free_heap: resolve_spec(mods, NTDLL_DBJ2, RTL_FREE_HEAP_H),
            rtl_re_allocate_heap: resolve_spec(mods, NTDLL_DBJ2, RTL_REALLOCATE_HEAP_H),
            rtl_destroy_heap: resolve_spec(mods, NTDLL_DBJ2, RTL_DESTROY_HEAP_H),
            nt_terminate_process: resolve_spec(mods, NTDLL_DBJ2, NT_TERMINATE_PROCESS_H),
        },
        kernel32_base: module_base_spec(mods, KERNEL32_DBJ2),
        write_file: resolve_spec(mods, KERNEL32_DBJ2, WRITE_FILE_DBJ2),
    }
}

/// Fills the capability table of the located state block: resolves the
/// native-layer module and its heap and termination primitives, and the
/// I/O-layer module with its write primitive, all by digest. The located
/// block must exist; everything else in the environment is kept.
pub fn init_native_funcs(env: &mut ProcessEnvironment)
    requires
        locate_spec(old(env).heap_slots@) is Some,
    ensures
        final(env).modules@ == old(env).modules@,
        ({
            let i = locate_spec(old(env).heap_slots@).unwrap();
            final(env).heap_slots@ == old(env).heap_slots@.update(
                i,
                Slot::Block(
                    resolved_instance(
                        old(env).modules@,
                        slot_instance(old(env).heap_slots@[i]),
                    ),
                ),
            )
        }),
{
    let i = match locate_instance(env) {
        Some(i) => i,
        None => vstd::pervasive::unreached(),
    };
    let prior = *instance_at(env, i);
    let module_base = match find_module(env, NTDLL_DBJ2) {
        Some(b) => b,
        None => 0,
    };
    let kernel32_base = match find_module(env, KERNEL32_DBJ2) {
        Some(b) => b,
        None => 0,
    };
    let updated = Instance {
        magic: prior.magic,
        heap_handle: prior.heap_handle,
        ntdll: Ntdll {
            module_base,
            rtl_create_heap: resolve(env, NTDLL_DBJ2, RTL_CREATE_HEAP_H),
            rtl_allocate_heap: resolve(env, NTDLL_DBJ2, RTL_ALLOCATE_HEAP_H),
            rtl_free_heap: resolve(env, NTDLL_DBJ2, RTL_FREE_HEAP_H),
            rtl_re_allocate_heap: resolve(env, NTDLL_DBJ2, RTL_REALLOCATE_HEAP_H),
            rtl_destroy_heap: resolve(env, NTDLL_DBJ2, RTL_DESTROY_HEAP_H),
            nt_terminate_process: resolve(env, NTDLL_DBJ2, NT_TERMINATE_PROCESS_H),
        },
        kernel32_base,
        write_file: resolve(env, KERNEL32_DBJ2, WRITE_FILE_DBJ2),
    };
    env.heap_slots.set(i, Slot::Block(updated));
}

/// The initialization entry point: builds a fresh state block, publishes
/// it through the heap-slot table, fills its capability table by digest
/// resolution, creates the bootstrap heap with growable semantics and
/// records its handle in the block. Returns the allocator over that heap.
///
/// The locator accepts the first slot whose tag matches, so on an
/// environment already holding a tagged block the resolution lands on
/// that block instead of the fresh one — the published channel offers no
/// stronger discrimination.
pub fn initialize(env: &mut ProcessEnvironment) -> (alloc: NtHeapAlloc)
    ensures
        final(env).modules@ == old(env).modules@,
        alloc.initialized(),
        alloc.growable(),
        alloc.tokens() == 0,
        ({
            let published = old(env).heap_slots@.push(Slot::Block(Instance::initial()));
            let i = locate_spec(published).unwrap();
            locate_spec(published) is Some && final(env).heap_slots@ == published.update(
                i,
                Slot::Block(
                    (Instance {
                        heap_handle: BOOTSTRAP_HEAP_HANDLE,
                        ..resolved_instance(old(env).modules@, slot_instance(published[i]))
                    }),
                ),
            ) && locate_spec(final(env).heap_slots@) == Some(i)
        }),
{
    let inst = Instance::new();
    proof {
        lemma_publish_locatable(env.heap_slots@, inst);
    }
    publish_instance(env, inst);
    let ghost published = env.heap_slots@;
    init_native_funcs(env);
    let ghost i_spec = locate_spec(published).unwrap();
    proof {
        crate::process::lemma_first_instance_props(published, 0);
        assert(slot_is_instance(env.heap_slots@[i_spec]));
        assert forall|k: int| 0 <= k < i_spec implies !slot_is_instance(env.heap_slots@[k]) by {
            assert(env.heap_slots@[k] == published[k]);
        }
        lemma_first_instance_char(env.heap_slots@, i_spec);
    }
    let mut alloc = NtHeapAlloc::new();
    alloc.initialize();
    let i = match locate_instance(env) {
        Some(i) => i,
        None => vstd::pervasive::unreached(),
    };
    let mut cur = *instance_at(env, i);
    cur.set_heap_handle(alloc.handle());
    env.heap_slots.set(i, Slot::Block(cur));
    proof {
        assert(slot_is_instance(env.heap_slots@[i as int]));
        lemma_first_instance_char(env.heap_slots@, i as int);
    }
    alloc
}

} // verus!
