//! A verified model of a position-independent process bootstrap.
//!
//! The library locates a process's bookkeeping structures, resolves native
//! functions by name hash instead of import tables, publishes a single
//! process-wide state block through a discoverable slot table, and stands
//! up a dynamic-memory allocator on top of the resolved primitives.
//!
//! The OS-owned structures (module list, image headers, heap slot table,
//! native heap) are modelled as explicit in-memory values, so every piece
//! of the resolution and bootstrap logic is stated and proved over plain
//! byte sequences and records.

pub mod allocator;
pub mod boot;
pub mod heap;
pub mod instance;
pub mod pe;
pub mod process;
pub mod utils;
