//! The serialization path of the shared containers, mediated by the type
//! registry.
//!
//! Only a registered-type container whose type supplies a serialize adapter
//! can be persisted, and its wire shape is a two-element sequence: the type's
//! stable global name, then the type-specific payload. Untyped containers and
//! transient containers fail unconditionally; no placeholder is ever emitted.
//! Deserialization reads the global name back, resolves it to a type
//! identifier, and rebuilds the container behind a fresh allocation.

use vstd::prelude::*;
use vstd::string::StringExecFns;
use crate::ValueTypeId;
use crate::erased::{
    ErasedValue, SharedAllocator, SharedReference, SharedValue, TransientSharedValue,
};
use crate::registry::{TypeDescriptor, TypeRegistry};

verus! {

/// The wire shape of a persisted registered-type value: the type's stable
/// global name and the type-specific serialized payload. Absent, untyped and
/// transient values are never valid in this position.
#[derive(Debug)]
pub struct SerializedShared {
    /// The registered type's stable global name.
    pub global_name: String,
    /// The payload the type's serialize adapter emits.
    pub payload: Vec<u8>,
}

/// Why a container cannot be serialized.
#[derive(Clone, Copy, Debug, PartialEq, Eq, Structural)]
pub enum SerializeError {
    /// The container carries no registered type.
    Untyped,
    /// The container is transient: excluded from persistence by design.
    Transient,
    /// The container's type identifier is not in the registry.
    UnknownType(ValueTypeId),
    /// The registered type supplies no serialize adapter.
    NotSerializable(ValueTypeId),
}

/// Why a wire form cannot be deserialized.
#[derive(Clone, Copy, Debug, PartialEq, Eq, Structural)]
pub enum DeserializeError {
    /// No registered type bears the wire form's global name.
    UnknownGlobalName,
    /// The registered type supplies no deserialize adapter.
    NotDeserializable(ValueTypeId),
}

/// What serializing a registered-type container yields: the global name and
/// payload on success, and otherwise exactly which capability was missing.
pub open spec fn spec_serialize_typed(
    reg: &TypeRegistry,
    ty_opt: Option<ValueTypeId>,
    p: &ErasedValue,
) -> Result<(Seq<char>, Seq<u8>), SerializeError> {
    match ty_opt {
        None => Err(SerializeError::Untyped),
        Some(ty) => match reg.spec_get_type(ty) {
            None => Err(SerializeError::UnknownType(ty)),
            Some(d) => {
                if d.has_serializer {
                    Ok((d.global_name@, p.content@))
                } else {
                    Err(SerializeError::NotSerializable(ty))
                }
            },
        },
    }
}

/// Serializes the payload of a registered-type container.
fn serialize_typed(reg: &TypeRegistry, ty_opt: &Option<ValueTypeId>, p: &ErasedValue) -> (r:
    Result<SerializedShared, SerializeError>)
    ensures
        match spec_serialize_typed(reg, *ty_opt, p) {
            Ok((name, bytes)) => r matches Ok(s) && s.global_name@ == name && s.payload@ == bytes,
            Err(e) => r == Err::<SerializedShared, SerializeError>(e),
        },
{
    match ty_opt {
        None => Err(SerializeError::Untyped),
        Some(ty) => {
            match reg.get_type(*ty) {
                None => Err(SerializeError::UnknownType(*ty)),
                Some(d) => {
                    if d.has_serializer {
                        Ok(
                            SerializedShared {
                                global_name: d.global_name.clone(),
                                payload: p.content.clone(),
                            },
                        )
                    } else {
                        Err(SerializeError::NotSerializable(*ty))
                    }
                },
            }
        },
    }
}

impl SharedValue {
    /// Serializes this container: succeeds exactly when it carries a
    /// registered type that supplies a serialize adapter, and then emits the
    /// wire shape `(global type name, payload)`.
    pub fn serialize(&self, reg: &TypeRegistry) -> (r: Result<SerializedShared, SerializeError>)
        ensures
            match spec_serialize_typed(reg, self.0, &self.1) {
                Ok((name, bytes)) => r matches Ok(s) && s.global_name@ == name && s.payload@
                    == bytes,
                Err(e) => r == Err::<SerializedShared, SerializeError>(e),
            },
    {
        serialize_typed(reg, &self.0, &self.1)
    }
}

impl SharedReference {
    /// Serializes this container: succeeds exactly when it carries a
    /// registered type that supplies a serialize adapter. An untyped
    /// reference fails unconditionally.
    pub fn serialize(&self, reg: &TypeRegistry) -> (r: Result<SerializedShared, SerializeError>)
        ensures
            match spec_serialize_typed(reg, self.0, &self.1) {
                Ok((name, bytes)) => r matches Ok(s) && s.global_name@ == name && s.payload@
                    == bytes,
                Err(e) => r == Err::<SerializedShared, SerializeError>(e),
            },
            self.0 is None ==> r == Err::<SerializedShared, SerializeError>(
                SerializeError::Untyped,
            ),
    {
        serialize_typed(reg, &self.0, &self.1)
    }
}

impl TransientSharedValue {
    /// Serializing a transient value always fails: transient values are
    /// valid only within a single process run.
    pub fn serialize(&self) -> (r: Result<SerializedShared, SerializeError>)
        ensures
            r == Err::<SerializedShared, SerializeError>(SerializeError::Transient),
    {
        Err(SerializeError::Transient)
    }
}

/// What deserializing a wire form yields: the registered type whose global
/// name it opens with, or exactly which step failed.
pub open spec fn spec_deserialize(reg: &TypeRegistry, name: Seq<char>) -> Result<
    ValueTypeId,
    DeserializeError,
> {
    match reg.spec_type_id_by_name(name) {
        None => Err(DeserializeError::UnknownGlobalName),
        Some(ty) => {
            if reg.spec_get_type(ty)->Some_0.has_deserializer {
                Ok(ty)
            } else {
                Err(DeserializeError::NotDeserializable(ty))
            }
        },
    }
}

/// Deserializes a wire form back into a registered-type container: resolves
/// the global name to a type identifier, checks that the type supplies a
/// deserialize adapter, and rebuilds the value behind a fresh allocation.
/// Unknown global names and types without a deserialize adapter fail.
pub fn deserialize_shared(
    reg: &TypeRegistry,
    alloc: &mut SharedAllocator,
    wire: &SerializedShared,
) -> (r: Result<SharedValue, DeserializeError>)
    requires
        old(alloc).next_id < u64::MAX,
    ensures
        match spec_deserialize(reg, wire.global_name@) {
            Ok(ty) => {
                &&& r matches Ok(sv)
                &&& sv.0 == Some(ty)
                &&& sv.1.type_tag == reg.spec_get_type(ty)->Some_0.type_tag
                &&& sv.1.content@ == wire.payload@
                &&& sv.1.alloc_id == old(alloc).next_id
                &&& final(alloc).next_id == old(alloc).next_id + 1
            },
            Err(e) => r == Err::<SharedValue, DeserializeError>(e) && *final(alloc) == *old(alloc),
        },
{
    match reg.get_type_id_by_global_name(&wire.global_name) {
        None => Err(DeserializeError::UnknownGlobalName),
        Some(ty) => {
            proof {
                lemma_name_lookup_registered(reg.types_seq(), wire.global_name@);
            }
            let d = match reg.get_type(ty) {
                Some(d) => d,
                None => vstd::pervasive::unreached(),
            };
            if d.has_deserializer {
                let payload = alloc.allocate(d.type_tag, wire.payload.clone());
                Ok(SharedValue(Some(ty), payload))
            } else {
                Err(DeserializeError::NotDeserializable(ty))
            }
        },
    }
}

/// A type found by global name is registered, and its descriptor bears that
/// name.
pub proof fn lemma_name_lookup_registered(s: Seq<(ValueTypeId, TypeDescriptor)>, name: Seq<char>)
    requires
        TypeRegistry::spec_lookup_by_name(s, name) is Some,
    ensures
        ({
            let ty = TypeRegistry::spec_lookup_by_name(s, name)->Some_0;
            crate::registry::spec_lookup(s, ty) is Some
        }),
    decreases s.len(),
{
    if s.len() > 0 {
        if s[0].1.global_name@ == name {
        } else {
            lemma_name_lookup_registered(s.drop_first(), name);
        }
    }
}

/// The serialization round trip. A container of a registered type `ty` whose
/// descriptor supplies both adapters, whose payload's dynamic type is the
/// registered one, and whose global name resolves back to `ty` (global names
/// are registered once), serializes to the wire shape `(name, payload)`; and
/// whatever `deserialize_shared` rebuilds from that wire shape carries the
/// same registered type and a payload holding the same value — a fresh
/// allocation, so equal structurally, not by container identity.
pub proof fn lemma_serialize_round_trip(
    reg: &TypeRegistry,
    ty: ValueTypeId,
    d: TypeDescriptor,
    p: ErasedValue,
)
    requires
        reg.spec_get_type(ty) == Some(d),
        reg.spec_type_id_by_name(d.global_name@) == Some(ty),
        d.has_serializer,
        d.has_deserializer,
        p.type_tag == d.type_tag,
    ensures
        spec_serialize_typed(reg, Some(ty), &p) == Ok::<(Seq<char>, Seq<u8>), SerializeError>(
            (d.global_name@, p.content@),
        ),
        spec_deserialize(reg, d.global_name@) == Ok::<ValueTypeId, DeserializeError>(ty),
        forall|sv: SharedValue|
            (sv.0 == Some(ty) && sv.1.type_tag == d.type_tag && sv.1.content@ == p.content@)
                ==> #[trigger] sv.1.same_value(&p),
{
}

} // verus!
