//! The task manager as the resolution engine observes it: a memoized store of
//! settled task outputs and committed cell contents. The real manager runs
//! tasks and may suspend a reader; this core only ever asks it two questions —
//! the current output of a task and the content of a cell — so it is modeled
//! by the answers those questions would get.

use vstd::prelude::*;
use crate::{CellId, TaskId};
use crate::input::{CellContent, ConcreteTaskInput};
use crate::registry::spec_lookup;

verus! {

/// A snapshot of settled task outputs and committed cell contents, keyed by
/// task (and cell) identifier. Lookups return the earliest entry for a key.
pub struct TaskManager {
    outputs: Vec<(TaskId, ConcreteTaskInput)>,
    cells: Vec<((TaskId, CellId), CellContent)>,
}

impl TaskManager {
    /// The settled outputs, in the order they settled.
    pub closed spec fn outputs_seq(&self) -> Seq<(TaskId, ConcreteTaskInput)> {
        self.outputs@
    }

    /// The committed cell contents.
    pub closed spec fn cells_seq(&self) -> Seq<((TaskId, CellId), CellContent)> {
        self.cells@
    }

    /// The output settled for task `t`, if any.
    pub open spec fn spec_output(&self, t: TaskId) -> Option<ConcreteTaskInput> {
        spec_lookup(self.outputs_seq(), t)
    }

    /// The content committed for cell `c` of task `t`, if any.
    pub open spec fn spec_cell(&self, t: TaskId, c: CellId) -> Option<CellContent> {
        spec_lookup(self.cells_seq(), (t, c))
    }

    /// An empty manager: no task has settled, no cell was written.
    pub fn new() -> (r: TaskManager)
        ensures
            r.outputs_seq() == Seq::<(TaskId, ConcreteTaskInput)>::empty(),
            r.cells_seq() == Seq::<((TaskId, CellId), CellContent)>::empty(),
    {
        TaskManager { outputs: Vec::new(), cells: Vec::new() }
    }

    /// Records the settled output of task `t`.
    pub fn set_output(&mut self, t: TaskId, v: ConcreteTaskInput)
        ensures
            final(self).outputs_seq() == old(self).outputs_seq().push((t, v)),
            final(self).cells_seq() == old(self).cells_seq(),
    {
        self.outputs.push((t, v));
    }

    /// Records the committed content of cell `c` of task `t`.
    pub fn set_cell(&mut self, t: TaskId, c: CellId, content: CellContent)
        ensures
            final(self).cells_seq() == old(self).cells_seq().push(((t, c), content)),
            final(self).outputs_seq() == old(self).outputs_seq(),
    {
        self.cells.push(((t, c), content));
    }

    /// Reads the current output of task `t`: the answer the external task
    /// manager's output read would give, shallow — the output is handed back
    /// as stored, without forcing resolution of anything it references.
    pub fn read_task_output(&self, t: TaskId) -> (r: Option<&ConcreteTaskInput>)
        ensures
            match r {
                Some(v) => self.spec_output(t) == Some(*v),
                None => self.spec_output(t) is None,
            },
    {
        proof {
            assert(self.outputs@.skip(0) =~= self.outputs@);
        }
        let mut i: usize = 0;
        while i < self.outputs.len()
            invariant
                i <= self.outputs@.len(),
                spec_lookup(self.outputs@, t) == spec_lookup(self.outputs@.skip(i as int), t),
            decreases self.outputs@.len() - i,
        {
            proof {
                assert(self.outputs@.skip(i as int).drop_first() =~= self.outputs@.skip(i + 1));
                assert(self.outputs@.skip(i as int)[0] == self.outputs@[i as int]);
            }
            if self.outputs[i].0 == t {
                return Some(&self.outputs[i].1);
            }
            i = i + 1;
        }
        None
    }

    /// Reads the committed content of cell `c` of task `t`.
    pub fn read_task_cell(&self, t: TaskId, c: CellId) -> (r: Option<&CellContent>)
        ensures
            match r {
                Some(v) => self.spec_cell(t, c) == Some(*v),
                None => self.spec_cell(t, c) is None,
            },
    {
        proof {
            assert(self.cells@.skip(0) =~= self.cells@);
        }
        let mut i: usize = 0;
        while i < self.cells.len()
            invariant
                i <= self.cells@.len(),
                spec_lookup(self.cells@, (t, c)) == spec_lookup(self.cells@.skip(i as int), (t, c)),
            decreases self.cells@.len() - i,
        {
            proof {
                assert(self.cells@.skip(i as int).drop_first() =~= self.cells@.skip(i + 1));
                assert(self.cells@.skip(i as int)[0] == self.cells@[i as int]);
            }
            if self.cells[i].0.0 == t && self.cells[i].0.1 == c {
                proof {
                    assert(self.cells@[i as int].0 == (t, c));
                }
                return Some(&self.cells[i].1);
            }
            i = i + 1;
        }
        None
    }
}

} // verus!
