//! The serialization failure boundary and the wire-shape round trip.

use turbo_tasks::erased::{SharedAllocator, SharedReference, SharedValue, TransientSharedValue};
use turbo_tasks::registry::{TypeDescriptor, TypeRegistry};
use turbo_tasks::serialize::{deserialize_shared, DeserializeError, SerializeError};

fn descriptor(name: &str, tag: u64, ser: bool, de: bool) -> TypeDescriptor {
    TypeDescriptor {
        global_name: name.to_string(),
        type_tag: tag,
        has_serializer: ser,
        has_deserializer: de,
        trait_methods: Vec::new(),
        traits: Vec::new(),
    }
}

#[test]
fn transient_values_never_serialize() {
    let mut alloc = SharedAllocator::new();
    let payload = alloc.allocate(11, vec![1]);
    let err = TransientSharedValue(payload).serialize().unwrap_err();
    assert_eq!(err, SerializeError::Transient);
}

#[test]
fn untyped_references_never_serialize() {
    let mut reg = TypeRegistry::new();
    reg.register_type(7, descriptor("my_type", 11, true, true));
    let mut alloc = SharedAllocator::new();
    let payload = alloc.allocate(11, vec![1]);
    let err = SharedReference(None, payload).serialize(&reg).unwrap_err();
    assert_eq!(err, SerializeError::Untyped);
}

#[test]
fn unregistered_and_unserializable_types_fail() {
    let mut reg = TypeRegistry::new();
    reg.register_type(8, descriptor("opaque", 12, false, false));
    let mut alloc = SharedAllocator::new();

    let payload = alloc.allocate(11, vec![1]);
    let err = SharedValue(Some(7), payload).serialize(&reg).unwrap_err();
    assert_eq!(err, SerializeError::UnknownType(7));

    let payload = alloc.allocate(12, vec![1]);
    let err = SharedValue(Some(8), payload).serialize(&reg).unwrap_err();
    assert_eq!(err, SerializeError::NotSerializable(8));
}

#[test]
fn registered_values_round_trip_structurally() {
    let mut reg = TypeRegistry::new();
    reg.register_type(7, descriptor("my_type", 11, true, true));
    let mut alloc = SharedAllocator::new();

    let payload = alloc.allocate(11, vec![1, 2, 3]);
    let original = SharedValue(Some(7), payload);

    let wire = original.serialize(&reg).unwrap();
    assert_eq!(wire.global_name, "my_type");
    assert_eq!(wire.payload, vec![1, 2, 3]);

    let rebuilt = deserialize_shared(&reg, &mut alloc, &wire).unwrap();
    // Structurally the same dynamic value: same registered type, same
    // dynamic type tag, same content.
    assert_eq!(rebuilt.0, Some(7));
    assert_eq!(rebuilt.1.type_tag, original.1.type_tag);
    assert_eq!(rebuilt.1.content, original.1.content);
    // But a fresh allocation: not equal by container identity.
    assert!(rebuilt != original);
}

#[test]
fn typed_references_serialize_like_shared_values() {
    let mut reg = TypeRegistry::new();
    reg.register_type(7, descriptor("my_type", 11, true, true));
    let mut alloc = SharedAllocator::new();
    let payload = alloc.allocate(11, vec![9]);
    let wire = SharedReference(Some(7), payload).serialize(&reg).unwrap();
    assert_eq!(wire.global_name, "my_type");
    assert_eq!(wire.payload, vec![9]);
}

#[test]
fn unknown_names_and_missing_adapters_fail_deserialization() {
    let mut reg = TypeRegistry::new();
    reg.register_type(7, descriptor("my_type", 11, true, true));
    reg.register_type(8, descriptor("write_only", 12, true, false));
    let mut alloc = SharedAllocator::new();

    let wire = turbo_tasks::serialize::SerializedShared {
        global_name: "nobody".to_string(),
        payload: vec![],
    };
    let err = deserialize_shared(&reg, &mut alloc, &wire).unwrap_err();
    assert_eq!(err, DeserializeError::UnknownGlobalName);

    let wire = turbo_tasks::serialize::SerializedShared {
        global_name: "write_only".to_string(),
        payload: vec![],
    };
    let err = deserialize_shared(&reg, &mut alloc, &wire).unwrap_err();
    assert_eq!(err, DeserializeError::NotDeserializable(8));
}
