//! Typed task-argument representation and resolution core of a memoized,
//! incremental task-computation engine.
//!
//! Every argument and return edge between tasks is encoded as a
//! [`ConcreteTaskInput`](input::ConcreteTaskInput): a tagged union of scalars,
//! lists, unresolved references to other tasks' outputs or cells, and three
//! flavors of type-erased shared value. This crate defines that union, the
//! conversions between native values and the union, the registry-mediated
//! serialization wire shape, and the algorithm that collapses a lazy
//! reference graph into a resolved value tree.

use vstd::prelude::*;

pub mod content_source;
pub mod convert;
pub mod erased;
pub mod input;
pub mod manager;
pub mod registry;
pub mod resolve;
pub mod run_graph;
pub mod serialize;
pub mod tuples;

verus! {

/// Identifier of a task known to the task manager.
pub type TaskId = u32;

/// Index of one numbered memory cell owned by a task.
pub type CellId = u32;

/// Identifier of a registered value type in the type registry.
pub type ValueTypeId = u32;

/// Identifier of a registered trait in the type registry.
pub type TraitTypeId = u32;

/// Identifier of a registered task function.
pub type FunctionId = u32;

} // verus!
