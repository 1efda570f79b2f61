//! Type-erased shared value containers.
//!
//! Each container owns a handle to a shared, reference-counted allocation of
//! an arbitrary caller-defined value. The engine never looks inside such an
//! allocation; it reads only the data modeled by [`ErasedValue`]: the dynamic
//! type tag (for checked casts), the identity of the allocation (for
//! equality, hashing and ordering), and the value's serialized content (what
//! a registered serialize adapter emits).

use vstd::prelude::*;
use vstd::std_specs::cmp::PartialEqSpec;
use crate::ValueTypeId;

verus! {

/// A shared, type-erased allocation, as the engine observes it.
#[derive(Debug, Hash)]
pub struct ErasedValue {
    /// Dynamic type tag of the stored value; a checked cast compares against it.
    pub type_tag: u64,
    /// Identity of the shared allocation. Container equality, hashing and
    /// ordering go by this field alone, never by content: two independently
    /// allocated, value-equal payloads carry different identities.
    pub alloc_id: u64,
    /// The stored value's content, as the bytes its serialize adapter emits.
    pub content: Vec<u8>,
}

impl ErasedValue {
    /// Structural equality of the stored values: same dynamic type, same
    /// content. Deliberately distinct from container equality, which is
    /// identity of the allocation.
    pub open spec fn same_value(&self, other: &ErasedValue) -> bool {
        self.type_tag == other.type_tag && self.content@ == other.content@
    }

    /// Full agreement of the observable fields: same allocation identity and
    /// the same stored value.
    pub open spec fn same_handle(&self, other: &ErasedValue) -> bool {
        self.alloc_id == other.alloc_id && self.same_value(other)
    }
}

impl Clone for ErasedValue {
    fn clone(&self) -> (r: Self)
        ensures
            r.same_handle(self),
    {
        ErasedValue {
            type_tag: self.type_tag,
            alloc_id: self.alloc_id,
            content: self.content.clone(),
        }
    }
}

/// Mints identities for shared allocations. Every allocation made through one
/// allocator carries an identity no earlier allocation carries, which is what
/// makes identity-based container equality sound.
pub struct SharedAllocator {
    /// The identity the next allocation will carry. All identities minted so
    /// far are strictly below it.
    pub next_id: u64,
}

impl SharedAllocator {
    /// A fresh allocator; no identities minted yet.
    pub fn new() -> (r: SharedAllocator)
        ensures
            r.next_id == 0,
    {
        SharedAllocator { next_id: 0 }
    }

    /// Places a value behind a new shared allocation: the returned handle
    /// carries a fresh identity, distinct from every identity this allocator
    /// minted before.
    pub fn allocate(&mut self, type_tag: u64, content: Vec<u8>) -> (r: ErasedValue)
        requires
            old(self).next_id < u64::MAX,
        ensures
            r.alloc_id == old(self).next_id,
            final(self).next_id == old(self).next_id + 1,
            r.type_tag == type_tag,
            r.content@ == content@,
    {
        let id = self.next_id;
        self.next_id = self.next_id + 1;
        ErasedValue { type_tag, alloc_id: id, content }
    }
}

/// Container for cell contents: a task-return value already committed to
/// storage. Carries the registered type of the value, or `None` for an
/// untyped reference, which can never be serialized.
#[derive(Debug, Hash)]
pub struct SharedReference(pub Option<ValueTypeId>, pub ErasedValue);

/// Container for a transient value: never linked to the registry and never
/// serializable; valid only within a single process run.
#[derive(Debug, Hash)]
pub struct TransientSharedValue(pub ErasedValue);

/// Container for a registered-type value: serializable when the registered
/// type supplies a serialize adapter.
#[derive(Debug, Hash)]
pub struct SharedValue(pub Option<ValueTypeId>, pub ErasedValue);

impl SharedReference {
    /// Checked cast: consumes the container and hands the allocation back
    /// when the stored value's dynamic type is the expected one.
    pub fn downcast(self, expected_tag: u64) -> (r: Option<ErasedValue>)
        ensures
            self.1.type_tag == expected_tag ==> (r matches Some(v) && v == self.1),
            self.1.type_tag != expected_tag ==> r is None,
    {
        if self.1.type_tag == expected_tag {
            Some(self.1)
        } else {
            None
        }
    }
}

impl TransientSharedValue {
    /// Checked cast: consumes the container and hands the allocation back
    /// when the stored value's dynamic type is the expected one.
    pub fn downcast(self, expected_tag: u64) -> (r: Option<ErasedValue>)
        ensures
            self.0.type_tag == expected_tag ==> (r matches Some(v) && v == self.0),
            self.0.type_tag != expected_tag ==> r is None,
    {
        if self.0.type_tag == expected_tag {
            Some(self.0)
        } else {
            None
        }
    }
}

impl SharedValue {
    /// Checked cast: consumes the container and hands the allocation back
    /// when the stored value's dynamic type is the expected one.
    pub fn downcast(self, expected_tag: u64) -> (r: Option<ErasedValue>)
        ensures
            self.1.type_tag == expected_tag ==> (r matches Some(v) && v == self.1),
            self.1.type_tag != expected_tag ==> r is None,
    {
        if self.1.type_tag == expected_tag {
            Some(self.1)
        } else {
            None
        }
    }
}

impl Clone for SharedReference {
    /// Cloning shares the allocation: the clone is equal to the original.
    fn clone(&self) -> (r: Self)
        ensures
            r.0 == self.0,
            r.1.same_handle(&self.1),
    {
        SharedReference(self.0, self.1.clone())
    }
}

impl Clone for TransientSharedValue {
    /// Cloning shares the allocation: the clone is equal to the original.
    fn clone(&self) -> (r: Self)
        ensures
            r.0.same_handle(&self.0),
    {
        TransientSharedValue(self.0.clone())
    }
}

impl Clone for SharedValue {
    /// Cloning shares the allocation: the clone is equal to the original.
    fn clone(&self) -> (r: Self)
        ensures
            r.0 == self.0,
            r.1.same_handle(&self.1),
    {
        SharedValue(self.0, self.1.clone())
    }
}

impl PartialEq for SharedReference {
    /// Identity of the underlying shared allocation, not structural equality
    /// of the contained value.
    fn eq(&self, other: &Self) -> (r: bool) {
        self.1.alloc_id == other.1.alloc_id
    }
}

impl vstd::std_specs::cmp::PartialEqSpecImpl for SharedReference {
    open spec fn obeys_eq_spec() -> bool {
        true
    }

    open spec fn eq_spec(&self, other: &Self) -> bool {
        self.1.alloc_id == other.1.alloc_id
    }
}

impl Eq for SharedReference {}

impl PartialEq for TransientSharedValue {
    /// Identity of the underlying shared allocation, not structural equality
    /// of the contained value.
    fn eq(&self, other: &Self) -> (r: bool) {
        self.0.alloc_id == other.0.alloc_id
    }
}

impl vstd::std_specs::cmp::PartialEqSpecImpl for TransientSharedValue {
    open spec fn obeys_eq_spec() -> bool {
        true
    }

    open spec fn eq_spec(&self, other: &Self) -> bool {
        self.0.alloc_id == other.0.alloc_id
    }
}

impl Eq for TransientSharedValue {}

impl PartialEq for SharedValue {
    /// Identity of the underlying shared allocation, not structural equality
    /// of the contained value.
    fn eq(&self, other: &Self) -> (r: bool) {
        self.1.alloc_id == other.1.alloc_id
    }
}

impl vstd::std_specs::cmp::PartialEqSpecImpl for SharedValue {
    open spec fn obeys_eq_spec() -> bool {
        true
    }

    open spec fn eq_spec(&self, other: &Self) -> bool {
        self.1.alloc_id == other.1.alloc_id
    }
}

impl Eq for SharedValue {}

impl PartialOrd for SharedReference {
    /// Orders by identity of the underlying shared allocation.
    fn partial_cmp(&self, other: &Self) -> (r: Option<core::cmp::Ordering>) {
        Some(cmp_u64(self.1.alloc_id, other.1.alloc_id))
    }
}

impl vstd::std_specs::cmp::PartialOrdSpecImpl for SharedReference {
    open spec fn obeys_partial_cmp_spec() -> bool {
        true
    }

    open spec fn partial_cmp_spec(&self, other: &Self) -> Option<core::cmp::Ordering> {
        Some(spec_cmp_u64(self.1.alloc_id, other.1.alloc_id))
    }
}

impl PartialOrd for TransientSharedValue {
    /// Orders by identity of the underlying shared allocation.
    fn partial_cmp(&self, other: &Self) -> (r: Option<core::cmp::Ordering>) {
        Some(cmp_u64(self.0.alloc_id, other.0.alloc_id))
    }
}

impl vstd::std_specs::cmp::PartialOrdSpecImpl for TransientSharedValue {
    open spec fn obeys_partial_cmp_spec() -> bool {
        true
    }

    open spec fn partial_cmp_spec(&self, other: &Self) -> Option<core::cmp::Ordering> {
        Some(spec_cmp_u64(self.0.alloc_id, other.0.alloc_id))
    }
}

impl PartialOrd for SharedValue {
    /// Orders by identity of the underlying shared allocation.
    fn partial_cmp(&self, other: &Self) -> (r: Option<core::cmp::Ordering>) {
        Some(cmp_u64(self.1.alloc_id, other.1.alloc_id))
    }
}

impl vstd::std_specs::cmp::PartialOrdSpecImpl for SharedValue {
    open spec fn obeys_partial_cmp_spec() -> bool {
        true
    }

    open spec fn partial_cmp_spec(&self, other: &Self) -> Option<core::cmp::Ordering> {
        Some(spec_cmp_u64(self.1.alloc_id, other.1.alloc_id))
    }
}

/// Total order on allocation identities.
pub open spec fn spec_cmp_u64(a: u64, b: u64) -> core::cmp::Ordering {
    if a < b {
        core::cmp::Ordering::Less
    } else if a == b {
        core::cmp::Ordering::Equal
    } else {
        core::cmp::Ordering::Greater
    }
}

/// Compares two allocation identities.
pub fn cmp_u64(a: u64, b: u64) -> (r: core::cmp::Ordering)
    ensures
        r == spec_cmp_u64(a, b),
{
    if a < b {
        core::cmp::Ordering::Less
    } else if a == b {
        core::cmp::Ordering::Equal
    } else {
        core::cmp::Ordering::Greater
    }
}

/// Containers built from independently allocated payloads are never equal,
/// even when the payloads hold the same value: equality is identity of the
/// shared allocation. The premises are exactly what two calls of
/// [`SharedAllocator::allocate`] on the same allocator ensure.
pub proof fn lemma_independent_allocations_unequal(
    first: ErasedValue,
    second: ErasedValue,
    id_after_first: u64,
)
    requires
        first.alloc_id < id_after_first,
        second.alloc_id >= id_after_first,
    ensures
        !SharedValue(None, first).eq_spec(&SharedValue(None, second)),
        !SharedReference(None, first).eq_spec(&SharedReference(None, second)),
        !TransientSharedValue(first).eq_spec(&TransientSharedValue(second)),
        spec_cmp_u64(first.alloc_id, second.alloc_id) != core::cmp::Ordering::Equal,
{
}

} // verus!
