//! The process environment: loaded modules and the shared heap-slot table.
//!
//! The OS keeps, per process, a list of loaded modules and an array of heap
//! pointers with a count. Both are modelled here as explicit values: a
//! module carries its base address, its loader name (any encoding; hashing
//! skips zero bytes), and its mapped image. The heap-slot table is the
//! discovery channel for the state block: publishing appends the block to
//! the table, exactly as the native channel appends a pointer and bumps
//! the recorded count, and locating rescans the table and accepts the first
//! entry whose tag matches the magic constant. The tag is the only check:
//! an unrelated entry whose leading word happens to match would be accepted
//! too, an accepted limitation of the channel.
//!
//! On the target OS the environment block is reached through a processor-specific
//! pointer the OS populates for every running thread, a total operation
//! with no failure path; hosted here, the environment is the explicit
//! value every operation takes, injected by the caller.

use vstd::prelude::*;

use crate::instance::INSTANCE_MAGIC;
use crate::instance::Instance;
use crate::utils::dbj2_hash;
use crate::utils::hash_of;

verus! {

/// One loaded module: base address, loader name, and mapped image bytes.
pub struct ModuleRecord {
    pub base: u64,
    pub name: Vec<u8>,
    pub image: Vec<u8>,
}

/// One entry of the heap-slot table: empty, or some block whose leading
/// word is read as a tag.
#[derive(Clone, Copy)]
pub enum Slot {
    Null,
    Block(Instance),
}

/// The per-process environment block: the loader's module list and the
/// heap-slot table.
pub struct ProcessEnvironment {
    pub modules: Vec<ModuleRecord>,
    pub heap_slots: Vec<Slot>,
}

/// Index of the first module at or after `i` whose name digest is `target`.
pub open spec fn first_module_from(mods: Seq<ModuleRecord>, target: u32, i: int) -> Option<int>
    decreases mods.len() - i,
{
    if i < 0 || i >= mods.len() {
        None
    } else if hash_of(mods[i].name@) == target {
        Some(i)
    } else {
        first_module_from(mods, target, i + 1)
    }
}

/// Base address of the first module whose name digest is `target`.
pub open spec fn find_module_spec(mods: Seq<ModuleRecord>, target: u32) -> Option<u64> {
    match first_module_from(mods, target, 0) {
        Some(i) => Some(mods[i].base),
        None => None,
    }
}

pub proof fn lemma_first_module_props(mods: Seq<ModuleRecord>, target: u32, i: int)
    requires
        0 <= i,
    ensures
        match first_module_from(mods, target, i) {
            Some(j) => i <= j < mods.len() && hash_of(mods[j].name@) == target && (forall|k: int|
                i <= k < j ==> hash_of(mods[k].name@) != target),
            None => forall|k: int| i <= k < mods.len() ==> hash_of(mods[k].name@) != target,
        },
    decreases mods.len() - i,
{
    if i < mods.len() && hash_of(mods[i].name@) != target {
        lemma_first_module_props(mods, target, i + 1);
    }
}

/// Index of the first module of the list whose name digest is `target`.
pub fn find_module_index(env: &ProcessEnvironment, target: u32) -> (r: Option<usize>)
    ensures
        match r {
            Some(i) => first_module_from(env.modules@, target, 0) == Some(i as int),
            None => first_module_from(env.modules@, target, 0) is None,
        },
{
    let mut i: usize = 0;
    while i < env.modules.len()
        invariant
            i <= env.modules@.len(),
            first_module_from(env.modules@, target, 0) == first_module_from(
                env.modules@,
                target,
                i as int,
            ),
        decreases env.modules@.len() - i,
    {
        let h = dbj2_hash(env.modules[i].name.as_slice());
        if h == target {
            return Some(i);
        }
        i = i + 1;
    }
    None
}

/// Walks the module list and returns the base address of the first module
/// whose name digest is `target`; nothing when no loaded module matches.
/// The walk visits every module once, in list order.
pub fn find_module(env: &ProcessEnvironment, target: u32) -> (r: Option<u64>)
    ensures
        r == find_module_spec(env.modules@, target),
        r is None <==> (forall|k: int|
            0 <= k < env.modules@.len() ==> hash_of(env.modules@[k].name@) != target),
{
    proof {
        lemma_first_module_props(env.modules@, target, 0);
    }
    match find_module_index(env, target) {
        Some(i) => Some(env.modules[i].base),
        None => None,
    }
}

/// A slot holds a locatable state block: it is occupied and its tag equals
/// the magic constant.
pub open spec fn slot_is_instance(s: Slot) -> bool {
    match s {
        Slot::Block(inst) => inst.magic == INSTANCE_MAGIC,
        Slot::Null => false,
    }
}

/// The block a slot holds; meaningful only for an occupied slot.
pub open spec fn slot_instance(s: Slot) -> Instance {
    match s {
        Slot::Block(inst) => inst,
        Slot::Null => vstd::pervasive::arbitrary(),
    }
}

/// Index of the first locatable slot at or after `i`.
pub open spec fn first_instance_from(slots: Seq<Slot>, i: int) -> Option<int>
    decreases slots.len() - i,
{
    if i < 0 || i >= slots.len() {
        None
    } else if slot_is_instance(slots[i]) {
        Some(i)
    } else {
        first_instance_from(slots, i + 1)
    }
}

/// Index of the first locatable slot of the table.
pub open spec fn locate_spec(slots: Seq<Slot>) -> Option<int> {
    first_instance_from(slots, 0)
}

pub proof fn lemma_first_instance_props(slots: Seq<Slot>, i: int)
    requires
        0 <= i,
    ensures
        match first_instance_from(slots, i) {
            Some(j) => i <= j < slots.len() && slot_is_instance(slots[j]) && (forall|k: int|
                i <= k < j ==> !slot_is_instance(slots[k])),
            None => forall|k: int| i <= k < slots.len() ==> !slot_is_instance(slots[k]),
        },
    decreases slots.len() - i,
{
    if i < slots.len() && !slot_is_instance(slots[i]) {
        lemma_first_instance_props(slots, i + 1);
    }
}

/// A table whose first locatable slot is known to be `i` locates `i`.
pub proof fn lemma_first_instance_char(slots: Seq<Slot>, i: int)
    requires
        0 <= i < slots.len(),
        slot_is_instance(slots[i]),
        forall|k: int| 0 <= k < i ==> !slot_is_instance(slots[k]),
    ensures
        locate_spec(slots) == Some(i),
{
    lemma_first_instance_char_from(slots, i, 0);
}

proof fn lemma_first_instance_char_from(slots: Seq<Slot>, i: int, j: int)
    requires
        0 <= j <= i < slots.len(),
        slot_is_instance(slots[i]),
        forall|k: int| j <= k < i ==> !slot_is_instance(slots[k]),
    ensures
        first_instance_from(slots, j) == Some(i),
    decreases i - j,
{
    if j < i {
        lemma_first_instance_char_from(slots, i, j + 1);
    }
}

/// Law: a freshly published block tagged with the magic constant is always
/// locatable afterwards, whatever the table held before.
pub proof fn lemma_publish_locatable(slots: Seq<Slot>, inst: Instance)
    requires
        inst.magic == INSTANCE_MAGIC,
    ensures
        locate_spec(slots.push(Slot::Block(inst))) is Some,
{
    lemma_push_locatable_from(slots, inst, 0);
}

proof fn lemma_push_locatable_from(slots: Seq<Slot>, inst: Instance, i: int)
    requires
        inst.magic == INSTANCE_MAGIC,
        0 <= i <= slots.len(),
    ensures
        first_instance_from(slots.push(Slot::Block(inst)), i) is Some,
    decreases slots.len() - i,
{
    let pushed = slots.push(Slot::Block(inst));
    if i == slots.len() {
        assert(pushed[i] == Slot::Block(inst));
    } else if !slot_is_instance(pushed[i]) {
        lemma_push_locatable_from(slots, inst, i + 1);
    }
}

/// Law: a slot whose tag does not match the magic constant is never the
/// one the locator returns.
pub proof fn lemma_mismatched_tag_not_located(slots: Seq<Slot>, i: int)
    requires
        0 <= i < slots.len(),
        !slot_is_instance(slots[i]),
    ensures
        locate_spec(slots) != Some(i),
{
    lemma_first_instance_props(slots, 0);
}

/// Publishes a state block: appends it to the heap-slot table, the moral
/// equivalent of writing the next free pointer slot and bumping the
/// recorded count. The module list is untouched.
pub fn publish_instance(env: &mut ProcessEnvironment, inst: Instance)
    ensures
        final(env).heap_slots@ == old(env).heap_slots@.push(Slot::Block(inst)),
        final(env).modules@ == old(env).modules@,
{
    env.heap_slots.push(Slot::Block(inst));
}

/// Rescans the heap-slot table and returns the index of the first slot
/// holding a block whose tag equals the magic constant; nothing when no
/// slot qualifies. Empty slots and blocks with a mismatched tag are
/// skipped.
pub fn locate_instance(env: &ProcessEnvironment) -> (r: Option<usize>)
    ensures
        match r {
            Some(i) => locate_spec(env.heap_slots@) == Some(i as int) && i
                < env.heap_slots@.len() && slot_is_instance(env.heap_slots@[i as int]) && (
            forall|k: int| 0 <= k < i ==> !slot_is_instance(env.heap_slots@[k])),
            None => locate_spec(env.heap_slots@) is None && (forall|k: int|
                0 <= k < env.heap_slots@.len() ==> !slot_is_instance(env.heap_slots@[k])),
        },
{
    proof {
        lemma_first_instance_props(env.heap_slots@, 0);
    }
    let mut i: usize = 0;
    while i < env.heap_slots.len()
        invariant
            i <= env.heap_slots@.len(),
            locate_spec(env.heap_slots@) == first_instance_from(env.heap_slots@, i as int),
        decreases env.heap_slots@.len() - i,
    {
        match &env.heap_slots[i] {
            Slot::Block(inst) => {
                if inst.magic == INSTANCE_MAGIC {
                    proof {
                        lemma_first_instance_props(env.heap_slots@, 0);
                    }
                    return Some(i);
                }
            },
            Slot::Null => {},
        }
        i = i + 1;
    }
    None
}

/// The block stored at slot `i`, which must be occupied.
pub fn instance_at(env: &ProcessEnvironment, i: usize) -> (r: &Instance)
    requires
        i < env.heap_slots@.len(),
        env.heap_slots@[i as int] is Block,
    ensures
        env.heap_slots@[i as int] == Slot::Block(*r),
{
    match &env.heap_slots[i] {
        Slot::Block(inst) => inst,
        Slot::Null => vstd::pervasive::unreached(),
    }
}

} // verus!
