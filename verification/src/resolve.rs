//! The resolution engine: collapses a value's references into the task graph
//! by querying the task manager.
//!
//! Two related operations. [`ConcreteTaskInput::resolve`] chases task-output
//! references and recurses into lists, so its result contains no reference to
//! a task output anywhere; cell references are left alone. Its stronger
//! sibling [`ConcreteTaskInput::resolve_to_value`] also follows a cell
//! reference at the top level, so its result is never a reference variant,
//! but it does not recurse into lists. The asymmetry is deliberate: the first
//! serves "give me a value tree with no unresolved task outputs", the second
//! "give me something I can pattern-match as a concrete scalar or container".
//!
//! A reference chain that revisits a task can never settle — the manager is
//! memoized, so a revisit replays the same chain — and is reported as a
//! cycle. Chains are therefore tracked per resolution path; sibling list
//! elements resolve independently, as the concurrent fan-out of the engine
//! demands.

use vstd::prelude::*;
use crate::{CellId, TaskId};
use crate::input::{
    all_resolved, deep_clone, lemma_all_resolved_iff, lemma_input_eq_refl, lemma_input_eq_resolved,
    spec_input_eq, CellContent, ConcreteTaskInput,
};
use crate::manager::TaskManager;
use crate::registry::{lemma_lookup_is_member, spec_lookup};

verus! {

/// Why a resolution failed.
#[derive(Clone, Copy, Debug, PartialEq, Eq, Structural)]
pub enum ResolveError {
    /// The chain of references returned to a task already on its path.
    Cycle(TaskId),
    /// A task-output reference pointed at a task with no settled output.
    TaskNotFound(TaskId),
    /// A cell reference pointed at a cell with no committed content.
    CellNotFound(TaskId, CellId),
}

/// The tasks whose outputs the manager has settled.
pub open spec fn spec_settled_tasks(outputs: Seq<(TaskId, ConcreteTaskInput)>) -> Set<TaskId> {
    outputs.map_values(|p: (TaskId, ConcreteTaskInput)| p.0).to_set()
}

/// How many settled tasks a resolution chain can still visit: the measure
/// that bounds every reference chain.
pub open spec fn spec_free_count(
    outputs: Seq<(TaskId, ConcreteTaskInput)>,
    visited: Seq<TaskId>,
) -> nat {
    spec_settled_tasks(outputs).difference(visited.to_set()).len()
}

/// Visiting a settled, not-yet-visited task strictly shrinks the measure.
pub proof fn lemma_free_decreases(
    outputs: Seq<(TaskId, ConcreteTaskInput)>,
    visited: Seq<TaskId>,
    t: TaskId,
)
    requires
        spec_lookup(outputs, t) is Some,
        !visited.contains(t),
    ensures
        spec_free_count(outputs, visited.push(t)) < spec_free_count(outputs, visited),
{
    let keys = spec_settled_tasks(outputs);
    lemma_lookup_is_member(outputs, t);
    let i = choose|i: int|
        0 <= i < outputs.len() && #[trigger] outputs[i] == (t, spec_lookup(outputs, t)->Some_0);
    assert(outputs.map_values(|p: (TaskId, ConcreteTaskInput)| p.0)[i] == t);
    assert(outputs.map_values(|p: (TaskId, ConcreteTaskInput)| p.0).contains(t));
    assert(keys.contains(t));
    vstd::seq_lib::seq_to_set_is_finite(outputs.map_values(|p: (TaskId, ConcreteTaskInput)| p.0));
    let free = keys.difference(visited.to_set());
    let free2 = keys.difference(visited.push(t).to_set());
    assert forall|x: TaskId| #[trigger] visited.push(t).to_set().contains(x) implies (
    visited.to_set().contains(x) || x == t) by {
        let j = choose|j: int| 0 <= j < visited.push(t).len() && visited.push(t)[j] == x;
        if j < visited.len() {
            assert(visited[j] == x);
            assert(visited.contains(x));
        }
    }
    assert forall|x: TaskId| visited.to_set().contains(x) implies #[trigger] visited.push(
        t,
    ).to_set().contains(x) by {
        let j = choose|j: int| 0 <= j < visited.len() && visited[j] == x;
        assert(visited.push(t)[j] == x);
        assert(visited.push(t).contains(x));
    }
    assert(visited.push(t)[visited.len() as int] == t);
    assert(visited.push(t).contains(t));
    assert(visited.push(t).to_set().contains(t));
    assert(visited.push(t).to_set() =~= visited.to_set().insert(t));
    assert forall|x: TaskId| free2.contains(x) <==> #[trigger] free.remove(t).contains(x) by {}
    assert(free2 =~= free.remove(t));
    assert(free.contains(t));
    assert(free.remove(t).len() < free.len());
}

impl ConcreteTaskInput {
    /// The outcome of chasing this value's output references along one
    /// resolution path: `None` when every chain settles, otherwise the first
    /// failure. A task already on the path is a cycle; a task without a
    /// settled output cannot be read; a list whose elements are all resolved
    /// is left alone, and otherwise each element is chased in turn.
    pub open spec fn spec_resolve_err(
        &self,
        tm: &TaskManager,
        visited: Seq<TaskId>,
    ) -> Option<ResolveError>
        decreases spec_free_count(tm.outputs_seq(), visited), *self
        via Self::resolve_err_decreases
    {
        match self {
            ConcreteTaskInput::TaskOutput(t) => {
                if visited.contains(*t) {
                    Some(ResolveError::Cycle(*t))
                } else {
                    match tm.spec_output(*t) {
                        None => Some(ResolveError::TaskNotFound(*t)),
                        Some(out) => out.spec_resolve_err(tm, visited.push(*t)),
                    }
                }
            },
            ConcreteTaskInput::List(l) => {
                if ConcreteTaskInput::spec_all_resolved(l@) {
                    None
                } else {
                    ConcreteTaskInput::spec_resolve_list_err(tm, visited, l@)
                }
            },
            _ => None,
        }
    }

    /// First failure among the elements of a list, if any.
    pub open spec fn spec_resolve_list_err(
        tm: &TaskManager,
        visited: Seq<TaskId>,
        s: Seq<ConcreteTaskInput>,
    ) -> Option<ResolveError>
        decreases spec_free_count(tm.outputs_seq(), visited), s
        via Self::resolve_list_err_decreases
    {
        if s.len() == 0 {
            None
        } else {
            match s[0].spec_resolve_err(tm, visited) {
                Some(e) => Some(e),
                None => ConcreteTaskInput::spec_resolve_list_err(
                    tm,
                    visited,
                    s.subrange(1, s.len() as int),
                ),
            }
        }
    }

    #[via_fn]
    proof fn resolve_err_decreases(&self, tm: &TaskManager, visited: Seq<TaskId>) {
        match self {
            ConcreteTaskInput::TaskOutput(t) => {
                if !visited.contains(*t) && tm.spec_output(*t) is Some {
                    lemma_free_decreases(tm.outputs_seq(), visited, *t);
                }
            },
            _ => {},
        }
    }

    #[via_fn]
    proof fn resolve_list_err_decreases(
        tm: &TaskManager,
        visited: Seq<TaskId>,
        s: Seq<ConcreteTaskInput>,
    ) {
    }

    /// Resolution as a relation: `r` is a possible result of resolving
    /// `self` along a path that has already visited `visited`. Terminal
    /// values resolve to an equal value; a task-output reference resolves to
    /// whatever the settled output resolves to; a list with an unresolved
    /// element resolves elementwise, preserving order.
    pub open spec fn spec_resolves_to(
        &self,
        tm: &TaskManager,
        visited: Seq<TaskId>,
        r: &ConcreteTaskInput,
    ) -> bool
        decreases spec_free_count(tm.outputs_seq(), visited), *self
        via Self::resolves_to_decreases
    {
        match self {
            ConcreteTaskInput::TaskOutput(t) => {
                &&& !visited.contains(*t)
                &&& tm.spec_output(*t) is Some
                &&& tm.spec_output(*t)->Some_0.spec_resolves_to(tm, visited.push(*t), r)
            },
            ConcreteTaskInput::List(l) => {
                if ConcreteTaskInput::spec_all_resolved(l@) {
                    spec_input_eq(r, self)
                } else {
                    match r {
                        ConcreteTaskInput::List(m) => ConcreteTaskInput::spec_resolve_list(
                            tm,
                            visited,
                            l@,
                            m@,
                        ),
                        _ => false,
                    }
                }
            },
            _ => spec_input_eq(r, self),
        }
    }

    /// Elementwise [`Self::spec_resolves_to`] over two sequences of the same
    /// length.
    pub open spec fn spec_resolve_list(
        tm: &TaskManager,
        visited: Seq<TaskId>,
        s: Seq<ConcreteTaskInput>,
        out: Seq<ConcreteTaskInput>,
    ) -> bool
        decreases spec_free_count(tm.outputs_seq(), visited), s
        via Self::resolve_list_decreases
    {
        s.len() == out.len() && (s.len() == 0 || (s[0].spec_resolves_to(tm, visited, &out[0])
            && ConcreteTaskInput::spec_resolve_list(
            tm,
            visited,
            s.subrange(1, s.len() as int),
            out.subrange(1, out.len() as int),
        )))
    }

    #[via_fn]
    proof fn resolves_to_decreases(
        &self,
        tm: &TaskManager,
        visited: Seq<TaskId>,
        r: &ConcreteTaskInput,
    ) {
        match self {
            ConcreteTaskInput::TaskOutput(t) => {
                if !visited.contains(*t) && tm.spec_output(*t) is Some {
                    lemma_free_decreases(tm.outputs_seq(), visited, *t);
                }
            },
            _ => {},
        }
    }

    #[via_fn]
    proof fn resolve_list_decreases(
        tm: &TaskManager,
        visited: Seq<TaskId>,
        s: Seq<ConcreteTaskInput>,
        out: Seq<ConcreteTaskInput>,
    ) {
    }
}

/// A list resolves elementwise exactly when the lengths agree and every
/// element resolves to its counterpart.
pub proof fn lemma_resolve_list_iff(
    tm: &TaskManager,
    visited: Seq<TaskId>,
    s: Seq<ConcreteTaskInput>,
    out: Seq<ConcreteTaskInput>,
)
    ensures
        ConcreteTaskInput::spec_resolve_list(tm, visited, s, out) <==> (s.len() == out.len() && (
        forall|i: int| 0 <= i < s.len() ==> #[trigger] s[i].spec_resolves_to(tm, visited, &out[i]))),
    decreases s.len(),
{
    if s.len() > 0 && s.len() == out.len() {
        let s2 = s.subrange(1, s.len() as int);
        let out2 = out.subrange(1, out.len() as int);
        lemma_resolve_list_iff(tm, visited, s2, out2);
        if ConcreteTaskInput::spec_resolve_list(tm, visited, s, out) {
            assert forall|i: int| 0 <= i < s.len() implies #[trigger] s[i].spec_resolves_to(
                tm,
                visited,
                &out[i],
            ) by {
                if i >= 1 {
                    assert(s2[i - 1] == s[i] && out2[i - 1] == out[i]);
                    assert(s2[i - 1].spec_resolves_to(tm, visited, &out2[i - 1]));
                }
            }
        } else {
            if s[0].spec_resolves_to(tm, visited, &out[0]) {
                assert(!ConcreteTaskInput::spec_resolve_list(tm, visited, s2, out2));
                assert(exists|i: int|
                    0 <= i < s2.len() && !(#[trigger] s2[i].spec_resolves_to(
                        tm,
                        visited,
                        &out2[i],
                    )));
                let i = choose|i: int|
                    0 <= i < s2.len() && !(#[trigger] s2[i].spec_resolves_to(tm, visited, &out2[i]));
                assert(s[i + 1] == s2[i] && out[i + 1] == out2[i]);
                assert(!s[i + 1].spec_resolves_to(tm, visited, &out[i + 1]));
            }
        }
    }
}

/// Every element of a list resolves without failure exactly when the list
/// reports no failure.
pub proof fn lemma_resolve_list_err_none(
    tm: &TaskManager,
    visited: Seq<TaskId>,
    s: Seq<ConcreteTaskInput>,
)
    ensures
        (ConcreteTaskInput::spec_resolve_list_err(tm, visited, s) is None) <==> (forall|i: int|
            0 <= i < s.len() ==> #[trigger] s[i].spec_resolve_err(tm, visited) is None),
    decreases s.len(),
{
    if s.len() > 0 {
        let s2 = s.subrange(1, s.len() as int);
        lemma_resolve_list_err_none(tm, visited, s2);
        if ConcreteTaskInput::spec_resolve_list_err(tm, visited, s) is None {
            assert forall|i: int| 0 <= i < s.len() implies #[trigger] s[i].spec_resolve_err(
                tm,
                visited,
            ) is None by {
                if i >= 1 {
                    assert(s2[i - 1] == s[i]);
                    assert(s2[i - 1].spec_resolve_err(tm, visited) is None);
                }
            }
        } else {
            if s[0].spec_resolve_err(tm, visited) is None {
                assert(ConcreteTaskInput::spec_resolve_list_err(tm, visited, s2) is Some);
                assert(exists|i: int|
                    0 <= i < s2.len() && !(#[trigger] s2[i].spec_resolve_err(tm, visited) is None));
                let i = choose|i: int|
                    0 <= i < s2.len() && !(#[trigger] s2[i].spec_resolve_err(tm, visited) is None);
                assert(s[i + 1] == s2[i]);
            }
        }
    }
}

/// When the elements before `k` resolve without failure and element `k`
/// fails, the list reports element `k`'s failure.
pub proof fn lemma_resolve_list_err_at(
    tm: &TaskManager,
    visited: Seq<TaskId>,
    s: Seq<ConcreteTaskInput>,
    k: int,
)
    requires
        0 <= k < s.len(),
        forall|j: int| 0 <= j < k ==> #[trigger] s[j].spec_resolve_err(tm, visited) is None,
        s[k].spec_resolve_err(tm, visited) is Some,
    ensures
        ConcreteTaskInput::spec_resolve_list_err(tm, visited, s) == s[k].spec_resolve_err(
            tm,
            visited,
        ),
    decreases k,
{
    let s2 = s.subrange(1, s.len() as int);
    if k == 0 {
    } else {
        assert(s[0].spec_resolve_err(tm, visited) is None);
        assert forall|j: int| 0 <= j < k - 1 implies #[trigger] s2[j].spec_resolve_err(
            tm,
            visited,
        ) is None by {
            assert(s2[j] == s[j + 1]);
        }
        assert(s2[k - 1] == s[k]);
        lemma_resolve_list_err_at(tm, visited, s2, k - 1);
    }
}

/// A resolved value resolves to itself, without failure.
pub proof fn lemma_resolved_trivial(tm: &TaskManager, visited: Seq<TaskId>, v: &ConcreteTaskInput)
    requires
        v.spec_is_resolved(),
    ensures
        v.spec_resolve_err(tm, visited) is None,
        v.spec_resolves_to(tm, visited, v),
{
    lemma_input_eq_refl(v);
}

/// Whether the resolution path has already visited task `t`.
fn contains_task(visited: &Vec<TaskId>, t: TaskId) -> (r: bool)
    ensures
        r == visited@.contains(t),
{
    let mut i: usize = 0;
    while i < visited.len()
        invariant
            i <= visited@.len(),
            forall|j: int| 0 <= j < i ==> visited@[j] != t,
        decreases visited@.len() - i,
    {
        if visited[i] == t {
            return true;
        }
        i = i + 1;
    }
    false
}

/// Copies a resolution path so a sibling can extend it independently.
fn clone_tasks(visited: &Vec<TaskId>) -> (r: Vec<TaskId>)
    ensures
        r@ == visited@,
{
    let mut out: Vec<TaskId> = Vec::new();
    let mut i: usize = 0;
    while i < visited.len()
        invariant
            i <= visited@.len(),
            out@ == visited@.subrange(0, i as int),
        decreases visited@.len() - i,
    {
        out.push(visited[i]);
        proof {
            assert(out@ =~= visited@.subrange(0, i + 1));
        }
        i = i + 1;
    }
    proof {
        assert(out@ =~= visited@);
    }
    out
}

/// Resolves `v` along a path that has already visited `visited`: chases
/// task-output references, recurses into unresolved lists, and leaves
/// everything else as an equal value.
#[verifier::loop_isolation(false)]
fn resolve_ref(v: &ConcreteTaskInput, tm: &TaskManager, visited: &Vec<TaskId>) -> (r: Result<
    ConcreteTaskInput,
    ResolveError,
>)
    ensures
        (r is Ok) <==> v.spec_resolve_err(tm, visited@) is None,
        r matches Ok(out) ==> v.spec_resolves_to(tm, visited@, &out) && out.spec_is_resolved(),
        r matches Err(e) ==> Some(e) == v.spec_resolve_err(tm, visited@),
    decreases spec_free_count(tm.outputs_seq(), visited@), v,
{
    match v {
        ConcreteTaskInput::TaskOutput(t) => {
            let t = *t;
            if contains_task(visited, t) {
                Err(ResolveError::Cycle(t))
            } else {
                match tm.read_task_output(t) {
                    None => Err(ResolveError::TaskNotFound(t)),
                    Some(out) => {
                        let mut path = clone_tasks(visited);
                        path.push(t);
                        proof {
                            lemma_free_decreases(tm.outputs_seq(), visited@, t);
                            assert(path@ == visited@.push(t));
                        }
                        resolve_ref(out, tm, &path)
                    },
                }
            }
        },
        ConcreteTaskInput::List(l) => {
            if all_resolved(l) {
                proof {
                    lemma_resolved_trivial(tm, visited@, v);
                }
                let c = deep_clone(v);
                proof {
                    lemma_input_eq_resolved(&c, v);
                }
                Ok(c)
            } else {
                let mut out_list: Vec<ConcreteTaskInput> = Vec::new();
                let mut i: usize = 0;
                while i < l.len()
                    invariant
                        i <= l@.len(),
                        out_list@.len() == i,
                        forall|j: int| 0 <= j < i ==> #[trigger] l@[j].spec_resolves_to(
                            tm,
                            visited@,
                            &out_list@[j],
                        ),
                        forall|j: int| 0 <= j < i ==> #[trigger] l@[j].spec_resolve_err(
                            tm,
                            visited@,
                        ) is None,
                        forall|j: int|
                            0 <= j < i ==> #[trigger] out_list@[j].spec_is_resolved(),
                    decreases l@.len() - i,
                {
                    proof {
                        assert(decreases_to!(*l => l@[i as int]));
                        assert(decreases_to!(
                            spec_free_count(tm.outputs_seq(), visited@), *v =>
                            spec_free_count(tm.outputs_seq(), visited@), l@[i as int]));
                    }
                    match resolve_ref(&l[i], tm, visited) {
                        Ok(rv) => {
                            out_list.push(rv);
                        },
                        Err(e) => {
                            proof {
                                lemma_resolve_list_err_at(tm, visited@, l@, i as int);
                            }
                            return Err(e);
                        },
                    }
                    i = i + 1;
                }
                proof {
                    lemma_resolve_list_iff(tm, visited@, l@, out_list@);
                    lemma_resolve_list_err_none(tm, visited@, l@);
                    lemma_all_resolved_iff(out_list@);
                }
                Ok(ConcreteTaskInput::List(out_list))
            }
        },
        _ => {
            proof {
                lemma_resolved_trivial(tm, visited@, v);
            }
            let c = deep_clone(v);
            proof {
                lemma_input_eq_resolved(&c, v);
            }
            Ok(c)
        },
    }
}

impl ConcreteTaskInput {
    /// Normalizes this value until it is no direct task-output reference and,
    /// for a list, until every element is resolved: output references are
    /// replaced by the task's settled output, shallowly read from the
    /// manager; a list whose elements all report themselves resolved is
    /// returned as it is, without consulting the manager; any other list has
    /// each element resolved independently, preserving order; every other
    /// variant — cell references included — is returned as it is.
    ///
    /// Fails with the first failure of any reference chain: a revisited task
    /// is a cycle, a task without a settled output cannot be read.
    pub fn resolve(self, tm: &TaskManager) -> (r: Result<ConcreteTaskInput, ResolveError>)
        ensures
            (r is Ok) <==> self.spec_resolve_err(tm, Seq::<TaskId>::empty()) is None,
            r matches Ok(out) ==> self.spec_resolves_to(tm, Seq::<TaskId>::empty(), &out)
                && out.spec_is_resolved(),
            r matches Err(e) ==> Some(e) == self.spec_resolve_err(tm, Seq::<TaskId>::empty()),
            self.spec_is_resolved() ==> r == Ok::<ConcreteTaskInput, ResolveError>(self),
    {
        if self.is_resolved() {
            proof {
                lemma_resolved_trivial(tm, Seq::<TaskId>::empty(), &self);
            }
            return Ok(self);
        }
        let visited: Vec<TaskId> = Vec::new();
        proof {
            assert(visited@ =~= Seq::<TaskId>::empty());
        }
        resolve_ref(&self, tm, &visited)
    }

    /// The outcome of collapsing the top-level reference chain of this value:
    /// `None` when it settles, otherwise the first failure. Unlike list
    /// resolution this also follows cell references; unlike
    /// [`Self::spec_resolve_err`] it never looks into lists.
    pub open spec fn spec_resolve_value_err(
        &self,
        tm: &TaskManager,
        visited: Seq<TaskId>,
    ) -> Option<ResolveError>
        decreases spec_free_count(tm.outputs_seq(), visited), *self
        via Self::resolve_value_err_decreases
    {
        match self {
            ConcreteTaskInput::TaskOutput(t) => {
                if visited.contains(*t) {
                    Some(ResolveError::Cycle(*t))
                } else {
                    match tm.spec_output(*t) {
                        None => Some(ResolveError::TaskNotFound(*t)),
                        Some(out) => out.spec_resolve_value_err(tm, visited.push(*t)),
                    }
                }
            },
            ConcreteTaskInput::TaskCell(t, c) => {
                if tm.spec_cell(*t, *c) is Some {
                    None
                } else {
                    Some(ResolveError::CellNotFound(*t, *c))
                }
            },
            _ => None,
        }
    }

    #[via_fn]
    proof fn resolve_value_err_decreases(&self, tm: &TaskManager, visited: Seq<TaskId>) {
        match self {
            ConcreteTaskInput::TaskOutput(t) => {
                if !visited.contains(*t) && tm.spec_output(*t) is Some {
                    lemma_free_decreases(tm.outputs_seq(), visited, *t);
                }
            },
            _ => {},
        }
    }

    /// What a committed cell content reads back as.
    pub open spec fn spec_cell_value(content: CellContent) -> ConcreteTaskInput {
        match content {
            CellContent(None) => ConcreteTaskInput::Nothing,
            CellContent(Some(sr)) => ConcreteTaskInput::SharedReference(sr),
        }
    }

    /// Value resolution as a relation: `r` is a possible result of collapsing
    /// this value's top-level reference chain. A cell reference reads the
    /// committed cell content; lists are not recursed into.
    pub open spec fn spec_resolves_to_value(
        &self,
        tm: &TaskManager,
        visited: Seq<TaskId>,
        r: &ConcreteTaskInput,
    ) -> bool
        decreases spec_free_count(tm.outputs_seq(), visited), *self
        via Self::resolves_to_value_decreases
    {
        match self {
            ConcreteTaskInput::TaskOutput(t) => {
                &&& !visited.contains(*t)
                &&& tm.spec_output(*t) is Some
                &&& tm.spec_output(*t)->Some_0.spec_resolves_to_value(tm, visited.push(*t), r)
            },
            ConcreteTaskInput::TaskCell(t, c) => {
                &&& tm.spec_cell(*t, *c) is Some
                &&& spec_input_eq(r, &ConcreteTaskInput::spec_cell_value(tm.spec_cell(*t, *c)->Some_0))
            },
            _ => spec_input_eq(r, self),
        }
    }

    #[via_fn]
    proof fn resolves_to_value_decreases(
        &self,
        tm: &TaskManager,
        visited: Seq<TaskId>,
        r: &ConcreteTaskInput,
    ) {
        match self {
            ConcreteTaskInput::TaskOutput(t) => {
                if !visited.contains(*t) && tm.spec_output(*t) is Some {
                    lemma_free_decreases(tm.outputs_seq(), visited, *t);
                }
            },
            _ => {},
        }
    }

    /// Collapses this value's top-level reference chain completely: output
    /// references are replaced by the task's settled output and cell
    /// references by the committed cell content, until neither remains. The
    /// result is never a reference variant. Lists are not recursed into —
    /// only the top-level chain is collapsed.
    ///
    /// Fails with the first failure of the chain, as [`Self::resolve`] does,
    /// and also when a referenced cell has no committed content.
    pub fn resolve_to_value(self, tm: &TaskManager) -> (r: Result<
        ConcreteTaskInput,
        ResolveError,
    >)
        ensures
            (r is Ok) <==> self.spec_resolve_value_err(tm, Seq::<TaskId>::empty()) is None,
            r matches Ok(out) ==> self.spec_resolves_to_value(tm, Seq::<TaskId>::empty(), &out)
                && !(out is TaskOutput) && !(out is TaskCell),
            r matches Err(e) ==> Some(e) == self.spec_resolve_value_err(
                tm,
                Seq::<TaskId>::empty(),
            ),
            !(self is TaskOutput) && !(self is TaskCell) ==> r == Ok::<
                ConcreteTaskInput,
                ResolveError,
            >(self),
    {
        if matches!(&self, ConcreteTaskInput::TaskOutput(_) | ConcreteTaskInput::TaskCell(_, _)) {
            let visited: Vec<TaskId> = Vec::new();
            proof {
                assert(visited@ =~= Seq::<TaskId>::empty());
            }
            resolve_value_ref(&self, tm, &visited)
        } else {
            proof {
                lemma_input_eq_refl(&self);
            }
            Ok(self)
        }
    }
}

/// Collapses the top-level reference chain of `v` along a path that has
/// already visited `visited`.
fn resolve_value_ref(v: &ConcreteTaskInput, tm: &TaskManager, visited: &Vec<TaskId>) -> (r: Result<
    ConcreteTaskInput,
    ResolveError,
>)
    ensures
        (r is Ok) <==> v.spec_resolve_value_err(tm, visited@) is None,
        r matches Ok(out) ==> v.spec_resolves_to_value(tm, visited@, &out) && !(out is TaskOutput)
            && !(out is TaskCell),
        r matches Err(e) ==> Some(e) == v.spec_resolve_value_err(tm, visited@),
    decreases spec_free_count(tm.outputs_seq(), visited@), v,
{
    match v {
        ConcreteTaskInput::TaskOutput(t) => {
            let t = *t;
            if contains_task(visited, t) {
                Err(ResolveError::Cycle(t))
            } else {
                match tm.read_task_output(t) {
                    None => Err(ResolveError::TaskNotFound(t)),
                    Some(out) => {
                        let mut path = clone_tasks(visited);
                        path.push(t);
                        proof {
                            lemma_free_decreases(tm.outputs_seq(), visited@, t);
                            assert(path@ == visited@.push(t));
                        }
                        resolve_value_ref(out, tm, &path)
                    },
                }
            }
        },
        ConcreteTaskInput::TaskCell(t, c) => {
            match tm.read_task_cell(*t, *c) {
                None => Err(ResolveError::CellNotFound(*t, *c)),
                Some(content) => {
                    let copy = content.clone();
                    Ok(ConcreteTaskInput::from_cell_content(copy))
                },
            }
        },
        _ => {
            proof {
                lemma_input_eq_refl(v);
            }
            Ok(deep_clone(v))
        },
    }
}

} // verus!
