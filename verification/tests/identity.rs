//! Identity-based equality of the shared containers: two containers built
//! from independently allocated, value-equal payloads are not equal, do not
//! hash equal, and do not compare equal; clones of one container stay equal.

use std::cmp::Ordering;
use std::collections::hash_map::DefaultHasher;
use std::hash::{Hash, Hasher};

use turbo_tasks::erased::{
    SharedAllocator, SharedReference, SharedValue, TransientSharedValue,
};
use turbo_tasks::input::ConcreteTaskInput;

fn hash_of<T: Hash>(value: &T) -> u64 {
    let mut hasher = DefaultHasher::new();
    value.hash(&mut hasher);
    hasher.finish()
}

#[test]
fn independently_allocated_equal_payloads_are_unequal() {
    let mut alloc = SharedAllocator::new();
    // The same scalar, wrapped identically, behind two distinct allocations.
    let first = alloc.allocate(11, vec![42]);
    let second = alloc.allocate(11, vec![42]);

    let a = SharedValue(Some(1), first.clone());
    let b = SharedValue(Some(1), second.clone());
    assert!(a != b);
    assert_ne!(hash_of(&a), hash_of(&b));
    assert_ne!(a.partial_cmp(&b), Some(Ordering::Equal));

    let a = SharedReference(Some(1), first.clone());
    let b = SharedReference(Some(1), second.clone());
    assert!(a != b);
    assert_ne!(hash_of(&a), hash_of(&b));
    assert_ne!(a.partial_cmp(&b), Some(Ordering::Equal));

    let a = TransientSharedValue(first);
    let b = TransientSharedValue(second);
    assert!(a != b);
    assert_ne!(hash_of(&a), hash_of(&b));
    assert_ne!(a.partial_cmp(&b), Some(Ordering::Equal));
}

#[test]
fn clones_share_the_allocation_and_stay_equal() {
    let mut alloc = SharedAllocator::new();
    let payload = alloc.allocate(11, vec![42]);
    let a = SharedValue(Some(1), payload);
    let b = a.clone();
    assert!(a == b);
    assert_eq!(hash_of(&a), hash_of(&b));
    assert_eq!(a.partial_cmp(&b), Some(Ordering::Equal));
}

#[test]
fn container_identity_decides_task_input_equality() {
    let mut alloc = SharedAllocator::new();
    let first = alloc.allocate(11, vec![42]);
    let second = alloc.allocate(11, vec![42]);
    let a = ConcreteTaskInput::SharedValue(SharedValue(Some(1), first.clone()));
    let b = ConcreteTaskInput::SharedValue(SharedValue(Some(1), second));
    let c = ConcreteTaskInput::SharedValue(SharedValue(Some(1), first));
    assert!(a != b);
    assert!(a == c);
}

#[test]
fn downcast_checks_the_dynamic_type() {
    let mut alloc = SharedAllocator::new();
    let payload = alloc.allocate(11, vec![42]);

    let matched = SharedValue(Some(1), payload.clone()).downcast(11);
    assert_eq!(matched.as_ref().map(|p| p.content.as_slice()), Some(&[42u8][..]));
    assert!(SharedValue(Some(1), payload.clone()).downcast(12).is_none());

    assert!(SharedReference(None, payload.clone()).downcast(11).is_some());
    assert!(SharedReference(None, payload.clone()).downcast(12).is_none());

    assert!(TransientSharedValue(payload.clone()).downcast(11).is_some());
    assert!(TransientSharedValue(payload).downcast(12).is_none());
}
