//! The task argument value: the tagged union flowing along every task edge,
//! its resolution state, its equality, and its trait-membership queries.

use vstd::prelude::*;
use vstd::std_specs::cmp::PartialEqSpec;
use crate::{CellId, FunctionId, TaskId, TraitTypeId};
use crate::erased::{SharedReference, SharedValue, TransientSharedValue};
use crate::registry::{TypeDescriptor, TypeRegistry};

verus! {

/// An unresolved pointer into the task graph: either the overall output of a
/// task, or one numbered cell the task wrote.
#[derive(Clone, Copy, Debug, PartialEq, Eq, Structural, Hash)]
pub enum RawVc {
    TaskOutput(TaskId),
    TaskCell(TaskId, CellId),
}

/// The content of one task cell as storage hands it out: either nothing was
/// committed, or a shared reference to the committed value.
#[derive(Debug)]
pub struct CellContent(pub Option<SharedReference>);

/// The unit of currency of the task engine: every task argument and return
/// edge is encoded as one of these. `TaskOutput` and `TaskCell` are
/// unresolved references into the task graph; `List` composes values
/// positionally; the remaining variants are terminal.
#[derive(Debug, Hash)]
pub enum ConcreteTaskInput {
    /// Unresolved reference to the return value of another task.
    TaskOutput(TaskId),
    /// Unresolved reference to one numbered memory cell owned by another task.
    TaskCell(TaskId, CellId),
    /// Ordered sequence of values; order is meaningful (positional arguments).
    List(Vec<ConcreteTaskInput>),
    String(String),
    Bool(bool),
    Usize(usize),
    I8(i8),
    U8(u8),
    I16(i16),
    U16(u16),
    I32(i32),
    U32(u32),
    U64(u64),
    /// Explicit absence: the erased encoding of an empty optional.
    Nothing,
    SharedValue(SharedValue),
    TransientSharedValue(TransientSharedValue),
    SharedReference(SharedReference),
}

impl ConcreteTaskInput {
    /// A value is resolved when it contains no direct or transitive reference
    /// to another task's output. A list is resolved iff every element is; a
    /// cell reference counts as resolved for this purpose; everything else
    /// but a task-output reference is always resolved.
    pub open spec fn spec_is_resolved(&self) -> bool
        decreases self,
    {
        match self {
            ConcreteTaskInput::TaskOutput(_) => false,
            ConcreteTaskInput::List(list) => ConcreteTaskInput::spec_all_resolved(list@),
            _ => true,
        }
    }

    /// Every element of the sequence is resolved.
    pub open spec fn spec_all_resolved(s: Seq<ConcreteTaskInput>) -> bool
        decreases s,
    {
        if s.len() == 0 {
            true
        } else {
            s[0].spec_is_resolved() && ConcreteTaskInput::spec_all_resolved(
                s.subrange(1, s.len() as int),
            )
        }
    }

    /// Whether this value is resolved; see [`Self::spec_is_resolved`].
    pub fn is_resolved(&self) -> (r: bool)
        ensures
            r == self.spec_is_resolved(),
        decreases self,
    {
        match self {
            ConcreteTaskInput::TaskOutput(_) => false,
            ConcreteTaskInput::List(list) => all_resolved(list),
            _ => true,
        }
    }

    /// Whether this value is the explicit absence marker.
    pub fn is_nothing(&self) -> (r: bool)
        ensures
            r == (self is Nothing),
    {
        matches!(self, ConcreteTaskInput::Nothing)
    }

    /// The task a reference variant points into; `None` for every other
    /// variant.
    pub fn get_task_id(&self) -> (r: Option<TaskId>)
        ensures
            r == match self {
                ConcreteTaskInput::TaskOutput(t) => Some(*t),
                ConcreteTaskInput::TaskCell(t, _) => Some(*t),
                _ => None::<TaskId>,
            },
    {
        match self {
            ConcreteTaskInput::TaskOutput(t) | ConcreteTaskInput::TaskCell(t, _) => Some(*t),
            _ => None,
        }
    }

    /// The registered type a container variant carries: `Some(opt_ty)` for
    /// the two container variants that take part in trait dispatch, `None`
    /// for every other variant.
    pub open spec fn spec_dispatch_type(&self) -> Option<Option<crate::ValueTypeId>> {
        match self {
            ConcreteTaskInput::SharedValue(SharedValue(ty, _)) => Some(*ty),
            ConcreteTaskInput::SharedReference(SharedReference(ty, _)) => Some(*ty),
            _ => None,
        }
    }

    /// A trait query may only be made on a resolved, non-reference value, and
    /// the type a dispatching container carries must be registered — every
    /// registered-type container carries an identifier resolvable in the
    /// registry, so this only rules out values built against another registry.
    pub open spec fn spec_type_query_safe(&self, reg: &TypeRegistry) -> bool {
        &&& !(self is TaskOutput)
        &&& !(self is TaskCell)
        &&& match self.spec_dispatch_type() {
            Some(Some(ty)) => reg.spec_get_type(ty) is Some,
            _ => true,
        }
    }

    /// What a method lookup needs on top of [`Self::spec_type_query_safe`]:
    /// the queried trait itself must be registered, for its default-method
    /// table.
    pub open spec fn spec_trait_query_safe(&self, reg: &TypeRegistry, tr: TraitTypeId) -> bool {
        &&& self.spec_type_query_safe(reg)
        &&& (self.spec_dispatch_type() matches Some(Some(_)) ==> reg.spec_get_trait(tr) is Some)
    }

    /// What a trait-method query returns: the method registered for
    /// `(tr, name)` by the value's registered type, the trait's own default
    /// method of that name as a fallback, and otherwise the method name back
    /// for diagnostics. Values without a registered type never satisfy a
    /// lookup.
    pub open spec fn spec_trait_method(
        &self,
        reg: &TypeRegistry,
        tr: TraitTypeId,
        name: Seq<char>,
    ) -> Option<FunctionId> {
        match self.spec_dispatch_type() {
            Some(Some(ty)) => {
                let d = reg.spec_get_type(ty)->Some_0;
                match crate::registry::spec_lookup_method(d.trait_methods@, tr, name) {
                    Some(f) => Some(f),
                    None => crate::registry::spec_lookup_named(
                        reg.spec_get_trait(tr)->Some_0.default_methods@,
                        name,
                    ),
                }
            },
            _ => None,
        }
    }

    /// Looks the method `name` of trait `tr` up for this value.
    ///
    /// Calling this on an unresolved reference variant is an engine bug, not
    /// a recoverable condition, so those inputs are excluded outright.
    pub fn get_trait_method(&self, reg: &TypeRegistry, tr: TraitTypeId, name: String) -> (r: Result<
        FunctionId,
        String,
    >)
        requires
            self.spec_trait_query_safe(reg, tr),
        ensures
            match self.spec_trait_method(reg, tr, name@) {
                Some(f) => r == Ok::<FunctionId, String>(f),
                None => r matches Err(n) && n@ == name@,
            },
    {
        match self {
            ConcreteTaskInput::SharedValue(SharedValue(ty_opt, _))
            | ConcreteTaskInput::SharedReference(SharedReference(ty_opt, _)) => {
                if let Some(ty) = ty_opt {
                    let d = self.lookup_type(reg, *ty);
                    match crate::registry::find_method(&d.trait_methods, tr, &name) {
                        Some(f) => Ok(f),
                        None => {
                            let trd = reg.get_trait(tr);
                            match trd {
                                Some(trd) => {
                                    match crate::registry::find_named(&trd.default_methods, &name) {
                                        Some(f) => Ok(f),
                                        None => Err(name),
                                    }
                                },
                                None => Err(name),
                            }
                        },
                    }
                } else {
                    Err(name)
                }
            },
            _ => Err(name),
        }
    }

    /// Whether this value's registered type declares membership of trait
    /// `tr`. Values without a registered type never have a trait.
    pub fn has_trait(&self, reg: &TypeRegistry, tr: TraitTypeId) -> (r: bool)
        requires
            self.spec_type_query_safe(reg),
        ensures
            r == match self.spec_dispatch_type() {
                Some(Some(ty)) => reg.spec_get_type(ty)->Some_0.traits@.contains(tr),
                _ => false,
            },
    {
        match self {
            ConcreteTaskInput::SharedValue(SharedValue(ty_opt, _))
            | ConcreteTaskInput::SharedReference(SharedReference(ty_opt, _)) => {
                if let Some(ty) = ty_opt {
                    let d = self.lookup_type(reg, *ty);
                    crate::registry::contains_trait(&d.traits, tr)
                } else {
                    false
                }
            },
            _ => false,
        }
    }

    /// The traits this value's registered type declares, in declaration
    /// order; empty for values without a registered type.
    pub fn traits(&self, reg: &TypeRegistry) -> (r: Vec<TraitTypeId>)
        requires
            self.spec_type_query_safe(reg),
        ensures
            r@ == match self.spec_dispatch_type() {
                Some(Some(ty)) => reg.spec_get_type(ty)->Some_0.traits@,
                _ => Seq::<TraitTypeId>::empty(),
            },
    {
        match self {
            ConcreteTaskInput::SharedValue(SharedValue(ty_opt, _))
            | ConcreteTaskInput::SharedReference(SharedReference(ty_opt, _)) => {
                if let Some(ty) = ty_opt {
                    let d = self.lookup_type(reg, *ty);
                    crate::registry::copy_ids(&d.traits)
                } else {
                    Vec::new()
                }
            },
            _ => Vec::new(),
        }
    }

    /// Fetches the descriptor of a type this value carries; the query-safety
    /// precondition guarantees it is registered.
    fn lookup_type<'a>(&self, reg: &'a TypeRegistry, ty: crate::ValueTypeId) -> (r:
        &'a TypeDescriptor)
        requires
            reg.spec_get_type(ty) is Some,
        ensures
            Some(*r) == reg.spec_get_type(ty),
    {
        let d = reg.get_type(ty);
        match d {
            Some(d) => d,
            None => vstd::pervasive::unreached(),
        }
    }

    /// Converts the committed content of a cell: absent content is the
    /// explicit absence marker, committed content a shared-reference
    /// container. A cell read never yields a reference variant.
    pub fn from_cell_content(content: CellContent) -> (r: ConcreteTaskInput)
        ensures
            r == match content {
                CellContent(None) => ConcreteTaskInput::Nothing,
                CellContent(Some(sr)) => ConcreteTaskInput::SharedReference(sr),
            },
            r.spec_is_resolved(),
    {
        match content {
            CellContent(None) => ConcreteTaskInput::Nothing,
            CellContent(Some(sr)) => ConcreteTaskInput::SharedReference(sr),
        }
    }

    /// Converts an unresolved task-graph pointer into the value encoding it.
    pub fn from_raw_vc(raw: RawVc) -> (r: ConcreteTaskInput)
        ensures
            r == match raw {
                RawVc::TaskOutput(t) => ConcreteTaskInput::TaskOutput(t),
                RawVc::TaskCell(t, i) => ConcreteTaskInput::TaskCell(t, i),
            },
    {
        match raw {
            RawVc::TaskOutput(t) => ConcreteTaskInput::TaskOutput(t),
            RawVc::TaskCell(t, i) => ConcreteTaskInput::TaskCell(t, i),
        }
    }
}

/// Whether every element of a list is resolved; the fast path of list
/// resolution asks exactly this.
pub fn all_resolved(list: &Vec<ConcreteTaskInput>) -> (r: bool)
    ensures
        r == ConcreteTaskInput::spec_all_resolved(list@),
    decreases list,
{
    proof {
        lemma_all_resolved_iff(list@);
    }
    let mut i: usize = 0;
    while i < list.len()
        invariant
            i <= list@.len(),
            ConcreteTaskInput::spec_all_resolved(list@) <==> (forall|k: int|
                0 <= k < list@.len() ==> #[trigger] list@[k].spec_is_resolved()),
            forall|j: int| 0 <= j < i ==> #[trigger] list@[j].spec_is_resolved(),
        decreases list@.len() - i,
    {
        proof {
            assert(decreases_to!(*list => list@[i as int]));
        }
        if !list[i].is_resolved() {
            proof {
                assert(!list@[i as int].spec_is_resolved());
            }
            return false;
        }
        i = i + 1;
    }
    true
}

/// A sequence is all-resolved exactly when each of its elements is resolved.
pub proof fn lemma_all_resolved_iff(s: Seq<ConcreteTaskInput>)
    ensures
        ConcreteTaskInput::spec_all_resolved(s) <==> (forall|i: int|
            0 <= i < s.len() ==> #[trigger] s[i].spec_is_resolved()),
    decreases s.len(),
{
    if s.len() > 0 {
        let t = s.subrange(1, s.len() as int);
        lemma_all_resolved_iff(t);
        if ConcreteTaskInput::spec_all_resolved(s) {
            assert forall|i: int| 0 <= i < s.len() implies #[trigger] s[i].spec_is_resolved() by {
                if i >= 1 {
                    assert(t[i - 1] == s[i]);
                    assert(t[i - 1].spec_is_resolved());
                }
            }
        } else {
            if s[0].spec_is_resolved() {
                assert(!ConcreteTaskInput::spec_all_resolved(t));
                assert(exists|i: int|
                    0 <= i < t.len() && !(#[trigger] t[i].spec_is_resolved()));
                let i = choose|i: int| 0 <= i < t.len() && !(#[trigger] t[i].spec_is_resolved());
                assert(s[i + 1] == t[i]);
                assert(!s[i + 1].spec_is_resolved());
            }
        }
    }
}

/// Structural equality of two task argument values, except that the three
/// container variants compare by identity of their shared allocation, as
/// their own equality does, and strings compare by their characters.
pub open spec fn spec_input_eq(a: &ConcreteTaskInput, b: &ConcreteTaskInput) -> bool
    decreases a,
{
    match (a, b) {
        (ConcreteTaskInput::TaskOutput(t1), ConcreteTaskInput::TaskOutput(t2)) => t1 == t2,
        (ConcreteTaskInput::TaskCell(t1, c1), ConcreteTaskInput::TaskCell(t2, c2)) => t1 == t2
            && c1 == c2,
        (ConcreteTaskInput::List(l1), ConcreteTaskInput::List(l2)) => spec_lists_eq(l1@, l2@),
        (ConcreteTaskInput::String(s1), ConcreteTaskInput::String(s2)) => s1@ == s2@,
        (ConcreteTaskInput::Bool(b1), ConcreteTaskInput::Bool(b2)) => b1 == b2,
        (ConcreteTaskInput::Usize(v1), ConcreteTaskInput::Usize(v2)) => v1 == v2,
        (ConcreteTaskInput::I8(v1), ConcreteTaskInput::I8(v2)) => v1 == v2,
        (ConcreteTaskInput::U8(v1), ConcreteTaskInput::U8(v2)) => v1 == v2,
        (ConcreteTaskInput::I16(v1), ConcreteTaskInput::I16(v2)) => v1 == v2,
        (ConcreteTaskInput::U16(v1), ConcreteTaskInput::U16(v2)) => v1 == v2,
        (ConcreteTaskInput::I32(v1), ConcreteTaskInput::I32(v2)) => v1 == v2,
        (ConcreteTaskInput::U32(v1), ConcreteTaskInput::U32(v2)) => v1 == v2,
        (ConcreteTaskInput::U64(v1), ConcreteTaskInput::U64(v2)) => v1 == v2,
        (ConcreteTaskInput::Nothing, ConcreteTaskInput::Nothing) => true,
        (ConcreteTaskInput::SharedValue(v1), ConcreteTaskInput::SharedValue(v2)) => v1.eq_spec(v2),
        (
            ConcreteTaskInput::TransientSharedValue(v1),
            ConcreteTaskInput::TransientSharedValue(v2),
        ) => v1.eq_spec(v2),
        (ConcreteTaskInput::SharedReference(v1), ConcreteTaskInput::SharedReference(v2)) => v1
            .eq_spec(v2),
        _ => false,
    }
}

/// Elementwise [`spec_input_eq`] over two sequences of the same length.
pub open spec fn spec_lists_eq(s1: Seq<ConcreteTaskInput>, s2: Seq<ConcreteTaskInput>) -> bool
    decreases s1,
{
    s1.len() == s2.len() && (s1.len() == 0 || (spec_input_eq(&s1[0], &s2[0]) && spec_lists_eq(
        s1.subrange(1, s1.len() as int),
        s2.subrange(1, s2.len() as int),
    )))
}

/// Two sequences are list-equal exactly when they have the same length and
/// agree elementwise.
pub proof fn lemma_lists_eq_iff(s1: Seq<ConcreteTaskInput>, s2: Seq<ConcreteTaskInput>)
    ensures
        spec_lists_eq(s1, s2) <==> (s1.len() == s2.len() && (forall|i: int|
            0 <= i < s1.len() ==> #[trigger] spec_input_eq(&s1[i], &s2[i]))),
    decreases s1.len(),
{
    if s1.len() > 0 && s1.len() == s2.len() {
        let t1 = s1.subrange(1, s1.len() as int);
        let t2 = s2.subrange(1, s2.len() as int);
        lemma_lists_eq_iff(t1, t2);
        if spec_lists_eq(s1, s2) {
            assert forall|i: int| 0 <= i < s1.len() implies #[trigger] spec_input_eq(
                &s1[i],
                &s2[i],
            ) by {
                if i >= 1 {
                    assert(t1[i - 1] == s1[i] && t2[i - 1] == s2[i]);
                    assert(spec_input_eq(&t1[i - 1], &t2[i - 1]));
                }
            }
        } else {
            if spec_input_eq(&s1[0], &s2[0]) {
                assert(!spec_lists_eq(t1, t2));
                assert(exists|i: int|
                    0 <= i < t1.len() && !(#[trigger] spec_input_eq(&t1[i], &t2[i])));
                let i = choose|i: int|
                    0 <= i < t1.len() && !(#[trigger] spec_input_eq(&t1[i], &t2[i]));
                assert(s1[i + 1] == t1[i] && s2[i + 1] == t2[i]);
                assert(!spec_input_eq(&s1[i + 1], &s2[i + 1]));
            }
        }
    }
}

/// Decides [`spec_input_eq`].
pub fn input_equals(a: &ConcreteTaskInput, b: &ConcreteTaskInput) -> (r: bool)
    ensures
        r == spec_input_eq(a, b),
    decreases a,
{
    match (a, b) {
        (ConcreteTaskInput::TaskOutput(t1), ConcreteTaskInput::TaskOutput(t2)) => t1 == t2,
        (ConcreteTaskInput::TaskCell(t1, c1), ConcreteTaskInput::TaskCell(t2, c2)) => t1 == t2
            && c1 == c2,
        (ConcreteTaskInput::List(l1), ConcreteTaskInput::List(l2)) => lists_equal(l1, l2),
        (ConcreteTaskInput::String(s1), ConcreteTaskInput::String(s2)) => *s1 == *s2,
        (ConcreteTaskInput::Bool(b1), ConcreteTaskInput::Bool(b2)) => b1 == b2,
        (ConcreteTaskInput::Usize(v1), ConcreteTaskInput::Usize(v2)) => v1 == v2,
        (ConcreteTaskInput::I8(v1), ConcreteTaskInput::I8(v2)) => v1 == v2,
        (ConcreteTaskInput::U8(v1), ConcreteTaskInput::U8(v2)) => v1 == v2,
        (ConcreteTaskInput::I16(v1), ConcreteTaskInput::I16(v2)) => v1 == v2,
        (ConcreteTaskInput::U16(v1), ConcreteTaskInput::U16(v2)) => v1 == v2,
        (ConcreteTaskInput::I32(v1), ConcreteTaskInput::I32(v2)) => v1 == v2,
        (ConcreteTaskInput::U32(v1), ConcreteTaskInput::U32(v2)) => v1 == v2,
        (ConcreteTaskInput::U64(v1), ConcreteTaskInput::U64(v2)) => v1 == v2,
        (ConcreteTaskInput::Nothing, ConcreteTaskInput::Nothing) => true,
        (ConcreteTaskInput::SharedValue(v1), ConcreteTaskInput::SharedValue(v2)) => *v1 == *v2,
        (
            ConcreteTaskInput::TransientSharedValue(v1),
            ConcreteTaskInput::TransientSharedValue(v2),
        ) => *v1 == *v2,
        (ConcreteTaskInput::SharedReference(v1), ConcreteTaskInput::SharedReference(v2)) => *v1
            == *v2,
        _ => false,
    }
}

/// Decides [`spec_lists_eq`].
pub fn lists_equal(l1: &Vec<ConcreteTaskInput>, l2: &Vec<ConcreteTaskInput>) -> (r: bool)
    ensures
        r == spec_lists_eq(l1@, l2@),
    decreases l1,
{
    proof {
        lemma_lists_eq_iff(l1@, l2@);
    }
    if l1.len() != l2.len() {
        return false;
    }
    let mut i: usize = 0;
    while i < l1.len()
        invariant
            i <= l1@.len(),
            l1@.len() == l2@.len(),
            spec_lists_eq(l1@, l2@) <==> (forall|k: int|
                0 <= k < l1@.len() ==> #[trigger] spec_input_eq(&l1@[k], &l2@[k])),
            forall|j: int| 0 <= j < i ==> #[trigger] spec_input_eq(&l1@[j], &l2@[j]),
        decreases l1@.len() - i,
    {
        proof {
            assert(decreases_to!(*l1 => l1@[i as int]));
        }
        if !input_equals(&l1[i], &l2[i]) {
            proof {
                assert(!spec_input_eq(&l1@[i as int], &l2@[i as int]));
            }
            return false;
        }
        i = i + 1;
    }
    true
}

/// [`spec_input_eq`] is reflexive.
pub proof fn lemma_input_eq_refl(v: &ConcreteTaskInput)
    ensures
        spec_input_eq(v, v),
    decreases v,
{
    match v {
        ConcreteTaskInput::List(l) => {
            assert forall|i: int| 0 <= i < l@.len() implies #[trigger] spec_input_eq(
                &l@[i],
                &l@[i],
            ) by {
                assert(decreases_to!(*l => l@[i]));
                lemma_input_eq_refl(&l@[i]);
            }
            lemma_lists_eq_iff(l@, l@);
        },
        _ => {},
    }
}

/// Equal values agree on being resolved: [`spec_input_eq`] only ever equates
/// values of the same shape.
pub proof fn lemma_input_eq_resolved(a: &ConcreteTaskInput, b: &ConcreteTaskInput)
    requires
        spec_input_eq(a, b),
    ensures
        a.spec_is_resolved() == b.spec_is_resolved(),
    decreases a,
{
    match (a, b) {
        (ConcreteTaskInput::List(l1), ConcreteTaskInput::List(l2)) => {
            lemma_lists_eq_iff(l1@, l2@);
            lemma_all_resolved_iff(l1@);
            lemma_all_resolved_iff(l2@);
            assert forall|i: int|
                #![trigger l1@[i].spec_is_resolved()]
                #![trigger l2@[i].spec_is_resolved()]
                0 <= i < l1@.len() implies (l1@[i].spec_is_resolved()
                == l2@[i].spec_is_resolved()) by {
                assert(decreases_to!(*l1 => l1@[i]));
                assert(spec_input_eq(&l1@[i], &l2@[i]));
                lemma_input_eq_resolved(&l1@[i], &l2@[i]);
            }
        },
        _ => {},
    }
}

/// Copies a value. The copy is equal to the original: scalars and lists are
/// copied structurally, and a copied container shares the original's
/// allocation, so the two compare equal by identity.
#[verifier::loop_isolation(false)]
pub fn deep_clone(v: &ConcreteTaskInput) -> (r: ConcreteTaskInput)
    ensures
        spec_input_eq(&r, v),
    decreases v,
{
    match v {
        ConcreteTaskInput::TaskOutput(t) => ConcreteTaskInput::TaskOutput(*t),
        ConcreteTaskInput::TaskCell(t, c) => ConcreteTaskInput::TaskCell(*t, *c),
        ConcreteTaskInput::List(l) => {
            let mut out: Vec<ConcreteTaskInput> = Vec::new();
            let mut i: usize = 0;
            while i < l.len()
                invariant
                    i <= l@.len(),
                    out@.len() == i,
                    forall|j: int| 0 <= j < i ==> #[trigger] spec_input_eq(&out@[j], &l@[j]),
                decreases l@.len() - i,
            {
                proof {
                    assert(decreases_to!(*l => l@[i as int]));
                }
                let c = deep_clone(&l[i]);
                out.push(c);
                i = i + 1;
            }
            proof {
                lemma_lists_eq_iff(out@, l@);
            }
            ConcreteTaskInput::List(out)
        },
        ConcreteTaskInput::String(s) => ConcreteTaskInput::String(s.clone()),
        ConcreteTaskInput::Bool(b) => ConcreteTaskInput::Bool(*b),
        ConcreteTaskInput::Usize(x) => ConcreteTaskInput::Usize(*x),
        ConcreteTaskInput::I8(x) => ConcreteTaskInput::I8(*x),
        ConcreteTaskInput::U8(x) => ConcreteTaskInput::U8(*x),
        ConcreteTaskInput::I16(x) => ConcreteTaskInput::I16(*x),
        ConcreteTaskInput::U16(x) => ConcreteTaskInput::U16(*x),
        ConcreteTaskInput::I32(x) => ConcreteTaskInput::I32(*x),
        ConcreteTaskInput::U32(x) => ConcreteTaskInput::U32(*x),
        ConcreteTaskInput::U64(x) => ConcreteTaskInput::U64(*x),
        ConcreteTaskInput::Nothing => ConcreteTaskInput::Nothing,
        ConcreteTaskInput::SharedValue(sv) => ConcreteTaskInput::SharedValue(sv.clone()),
        ConcreteTaskInput::TransientSharedValue(tv) => ConcreteTaskInput::TransientSharedValue(
            tv.clone(),
        ),
        ConcreteTaskInput::SharedReference(sr) => ConcreteTaskInput::SharedReference(sr.clone()),
    }
}

impl Clone for ConcreteTaskInput {
    /// A copy equal to the original; container variants share their
    /// allocation with the original.
    fn clone(&self) -> (r: Self)
        ensures
            spec_input_eq(&r, self),
    {
        deep_clone(self)
    }
}

impl Clone for CellContent {
    /// A copy whose committed reference, if any, shares the original's
    /// allocation.
    fn clone(&self) -> (r: Self)
        ensures
            match self.0 {
                None => r.0 is None,
                Some(sr) => r.0 matches Some(sr2) && sr2.eq_spec(&sr) && sr2.0 == sr.0,
            },
    {
        match self {
            CellContent(None) => CellContent(None),
            CellContent(Some(sr)) => CellContent(Some(sr.clone())),
        }
    }
}

impl PartialEq for ConcreteTaskInput {
    /// Structural equality, except that container variants compare by
    /// identity of their shared allocation.
    fn eq(&self, other: &Self) -> (r: bool) {
        input_equals(self, other)
    }
}

impl vstd::std_specs::cmp::PartialEqSpecImpl for ConcreteTaskInput {
    open spec fn obeys_eq_spec() -> bool {
        true
    }

    open spec fn eq_spec(&self, other: &Self) -> bool {
        spec_input_eq(self, other)
    }
}

impl Eq for ConcreteTaskInput {}

} // verus!
