//! The type registry: a process-wide mapping from runtime type identifiers to
//! per-type operations, consulted by (but not owned by) this core. It is
//! built once at process start and read-only afterwards.

use vstd::prelude::*;
use crate::{FunctionId, TraitTypeId, ValueTypeId};

verus! {

/// Per-type operations the registry records for a registered value type.
pub struct TypeDescriptor {
    /// Stable global name; the first element of the serialized wire shape.
    pub global_name: String,
    /// Dynamic type tag of values of this type, as a checked cast sees it.
    pub type_tag: u64,
    /// Whether the type supplies a serialize adapter.
    pub has_serializer: bool,
    /// Whether the type supplies a deserialize adapter.
    pub has_deserializer: bool,
    /// Trait-method table: `(trait, method name)` to the registered function.
    pub trait_methods: Vec<((TraitTypeId, String), FunctionId)>,
    /// The traits this type declares membership of.
    pub traits: Vec<TraitTypeId>,
}

/// Per-trait operations the registry records for a registered trait.
pub struct TraitDescriptor {
    /// Default method implementations, by method name.
    pub default_methods: Vec<(String, FunctionId)>,
}

/// The registry itself: registered value types and registered traits.
pub struct TypeRegistry {
    types: Vec<(ValueTypeId, TypeDescriptor)>,
    traits: Vec<(TraitTypeId, TraitDescriptor)>,
}

/// First entry of `s` whose key is `k`, if any.
pub open spec fn spec_lookup<K, V>(s: Seq<(K, V)>, k: K) -> Option<V>
    decreases s.len(),
{
    if s.len() == 0 {
        None
    } else if s[0].0 == k {
        Some(s[0].1)
    } else {
        spec_lookup(s.drop_first(), k)
    }
}

/// A successful lookup returns an entry of the sequence.
pub proof fn lemma_lookup_is_member<K, V>(s: Seq<(K, V)>, k: K)
    requires
        spec_lookup(s, k) is Some,
    ensures
        exists|i: int| 0 <= i < s.len() && #[trigger] s[i] == (k, spec_lookup(s, k)->Some_0),
    decreases s.len(),
{
    if s.len() > 0 {
        if s[0].0 == k {
            assert(s[0] == (k, spec_lookup(s, k)->Some_0));
        } else {
            lemma_lookup_is_member(s.drop_first(), k);
            let i = choose|i: int|
                0 <= i < s.drop_first().len() && #[trigger] s.drop_first()[i] == (
                k,
                spec_lookup(s.drop_first(), k)->Some_0,
                );
            assert(s[i + 1] == (k, spec_lookup(s, k)->Some_0));
        }
    }
}

/// First function registered in a trait-method table under trait `tr` and
/// method name `name`, if any.
pub open spec fn spec_lookup_method(
    s: Seq<((TraitTypeId, String), FunctionId)>,
    tr: TraitTypeId,
    name: Seq<char>,
) -> Option<FunctionId>
    decreases s.len(),
{
    if s.len() == 0 {
        None
    } else if s[0].0.0 == tr && s[0].0.1@ == name {
        Some(s[0].1)
    } else {
        spec_lookup_method(s.drop_first(), tr, name)
    }
}

/// First function registered in a default-method table under method name
/// `name`, if any.
pub open spec fn spec_lookup_named(s: Seq<(String, FunctionId)>, name: Seq<char>) -> Option<
    FunctionId,
>
    decreases s.len(),
{
    if s.len() == 0 {
        None
    } else if s[0].0@ == name {
        Some(s[0].1)
    } else {
        spec_lookup_named(s.drop_first(), name)
    }
}

/// Looks `(tr, name)` up in a trait-method table.
pub fn find_method(
    table: &Vec<((TraitTypeId, String), FunctionId)>,
    tr: TraitTypeId,
    name: &String,
) -> (r: Option<FunctionId>)
    ensures
        r == spec_lookup_method(table@, tr, name@),
{
    proof {
        assert(table@.skip(0) =~= table@);
    }
    let mut i: usize = 0;
    while i < table.len()
        invariant
            i <= table@.len(),
            spec_lookup_method(table@, tr, name@) == spec_lookup_method(
                table@.skip(i as int),
                tr,
                name@,
            ),
        decreases table@.len() - i,
    {
        proof {
            assert(table@.skip(i as int).drop_first() =~= table@.skip(i + 1));
            assert(table@.skip(i as int)[0] == table@[i as int]);
        }
        if table[i].0.0 == tr && table[i].0.1 == *name {
            return Some(table[i].1);
        }
        i = i + 1;
    }
    None
}

/// Looks `name` up in a default-method table.
pub fn find_named(table: &Vec<(String, FunctionId)>, name: &String) -> (r: Option<FunctionId>)
    ensures
        r == spec_lookup_named(table@, name@),
{
    proof {
        assert(table@.skip(0) =~= table@);
    }
    let mut i: usize = 0;
    while i < table.len()
        invariant
            i <= table@.len(),
            spec_lookup_named(table@, name@) == spec_lookup_named(table@.skip(i as int), name@),
        decreases table@.len() - i,
    {
        proof {
            assert(table@.skip(i as int).drop_first() =~= table@.skip(i + 1));
            assert(table@.skip(i as int)[0] == table@[i as int]);
        }
        if table[i].0 == *name {
            return Some(table[i].1);
        }
        i = i + 1;
    }
    None
}

/// Whether a declared trait set contains the trait `tr`.
pub fn contains_trait(traits: &Vec<TraitTypeId>, tr: TraitTypeId) -> (r: bool)
    ensures
        r == traits@.contains(tr),
{
    let mut i: usize = 0;
    while i < traits.len()
        invariant
            i <= traits@.len(),
            forall|j: int| 0 <= j < i ==> traits@[j] != tr,
        decreases traits@.len() - i,
    {
        if traits[i] == tr {
            return true;
        }
        i = i + 1;
    }
    false
}

/// Copies a declared trait set, preserving order.
pub fn copy_ids(ids: &Vec<TraitTypeId>) -> (r: Vec<TraitTypeId>)
    ensures
        r@ == ids@,
{
    let mut out: Vec<TraitTypeId> = Vec::new();
    let mut i: usize = 0;
    while i < ids.len()
        invariant
            i <= ids@.len(),
            out@ == ids@.subrange(0, i as int),
        decreases ids@.len() - i,
    {
        out.push(ids[i]);
        proof {
            assert(out@ =~= ids@.subrange(0, i + 1));
        }
        i = i + 1;
    }
    proof {
        assert(out@ =~= ids@);
    }
    out
}

impl TypeRegistry {
    /// The registered value types, in registration order.
    pub closed spec fn types_seq(&self) -> Seq<(ValueTypeId, TypeDescriptor)> {
        self.types@
    }

    /// The registered traits, in registration order.
    pub closed spec fn traits_seq(&self) -> Seq<(TraitTypeId, TraitDescriptor)> {
        self.traits@
    }

    /// The descriptor registered for a value type, if any.
    pub open spec fn spec_get_type(&self, ty: ValueTypeId) -> Option<TypeDescriptor> {
        spec_lookup(self.types_seq(), ty)
    }

    /// The descriptor registered for a trait, if any.
    pub open spec fn spec_get_trait(&self, tr: TraitTypeId) -> Option<TraitDescriptor> {
        spec_lookup(self.traits_seq(), tr)
    }

    /// An empty registry: nothing registered yet.
    pub fn new() -> (r: TypeRegistry)
        ensures
            r.types_seq() == Seq::<(ValueTypeId, TypeDescriptor)>::empty(),
            r.traits_seq() == Seq::<(TraitTypeId, TraitDescriptor)>::empty(),
    {
        TypeRegistry { types: Vec::new(), traits: Vec::new() }
    }

    /// Registers a value type. Registration happens once at process start;
    /// an identifier registered twice keeps its first descriptor, since
    /// lookups return the earliest entry.
    pub fn register_type(&mut self, ty: ValueTypeId, descriptor: TypeDescriptor)
        ensures
            final(self).types_seq() == old(self).types_seq().push((ty, descriptor)),
            final(self).traits_seq() == old(self).traits_seq(),
    {
        self.types.push((ty, descriptor));
    }

    /// Registers a trait.
    pub fn register_trait(&mut self, tr: TraitTypeId, descriptor: TraitDescriptor)
        ensures
            final(self).traits_seq() == old(self).traits_seq().push((tr, descriptor)),
            final(self).types_seq() == old(self).types_seq(),
    {
        self.traits.push((tr, descriptor));
    }

    /// The identifier of the first registered type bearing this global name.
    pub open spec fn spec_type_id_by_name(&self, name: Seq<char>) -> Option<ValueTypeId> {
        Self::spec_lookup_by_name(self.types_seq(), name)
    }

    /// First registered type in `s` whose global name is `name`, if any.
    pub open spec fn spec_lookup_by_name(
        s: Seq<(ValueTypeId, TypeDescriptor)>,
        name: Seq<char>,
    ) -> Option<ValueTypeId>
        decreases s.len(),
    {
        if s.len() == 0 {
            None
        } else if s[0].1.global_name@ == name {
            Some(s[0].0)
        } else {
            Self::spec_lookup_by_name(s.drop_first(), name)
        }
    }

    /// Resolves a stable global name back to the registered type identifier,
    /// as deserialization must.
    pub fn get_type_id_by_global_name(&self, name: &String) -> (r: Option<ValueTypeId>)
        ensures
            r == self.spec_type_id_by_name(name@),
    {
        proof {
            assert(self.types@.skip(0) =~= self.types@);
        }
        let mut i: usize = 0;
        while i < self.types.len()
            invariant
                i <= self.types@.len(),
                Self::spec_lookup_by_name(self.types@, name@) == Self::spec_lookup_by_name(
                    self.types@.skip(i as int),
                    name@,
                ),
            decreases self.types@.len() - i,
        {
            proof {
                assert(self.types@.skip(i as int).drop_first() =~= self.types@.skip(i + 1));
                assert(self.types@.skip(i as int)[0] == self.types@[i as int]);
            }
            if self.types[i].1.global_name == *name {
                return Some(self.types[i].0);
            }
            i = i + 1;
        }
        None
    }

    /// The stable global name of a registered type: what the serialized wire
    /// shape opens with.
    pub fn get_global_name<'a>(&'a self, ty: ValueTypeId) -> (r: Option<&'a String>)
        ensures
            match r {
                Some(n) => self.spec_get_type(ty) matches Some(d) && d.global_name == *n,
                None => self.spec_get_type(ty) is None,
            },
    {
        match self.get_type(ty) {
            Some(d) => Some(&d.global_name),
            None => None,
        }
    }

    /// Looks a value type up by its identifier.
    pub fn get_type(&self, ty: ValueTypeId) -> (r: Option<&TypeDescriptor>)
        ensures
            match r {
                Some(d) => self.spec_get_type(ty) == Some(*d),
                None => self.spec_get_type(ty) is None,
            },
    {
        proof {
            assert(self.types@.skip(0) =~= self.types@);
        }
        let mut i: usize = 0;
        while i < self.types.len()
            invariant
                i <= self.types@.len(),
                spec_lookup(self.types@, ty) == spec_lookup(self.types@.skip(i as int), ty),
            decreases self.types@.len() - i,
        {
            proof {
                assert(self.types@.skip(i as int).drop_first() =~= self.types@.skip(i + 1));
            }
            if self.types[i].0 == ty {
                assert(self.types@.skip(i as int)[0] == self.types@[i as int]);
                return Some(&self.types[i].1);
            }
            i = i + 1;
        }
        None
    }

    /// Looks a trait up by its identifier.
    pub fn get_trait(&self, tr: TraitTypeId) -> (r: Option<&TraitDescriptor>)
        ensures
            match r {
                Some(d) => self.spec_get_trait(tr) == Some(*d),
                None => self.spec_get_trait(tr) is None,
            },
    {
        proof {
            assert(self.traits@.skip(0) =~= self.traits@);
        }
        let mut i: usize = 0;
        while i < self.traits.len()
            invariant
                i <= self.traits@.len(),
                spec_lookup(self.traits@, tr) == spec_lookup(self.traits@.skip(i as int), tr),
            decreases self.traits@.len() - i,
        {
            proof {
                assert(self.traits@.skip(i as int).drop_first() =~= self.traits@.skip(i + 1));
            }
            if self.traits[i].0 == tr {
                assert(self.traits@.skip(i as int)[0] == self.traits@[i as int]);
                return Some(&self.traits[i].1);
            }
            i = i + 1;
        }
        None
    }
}

} // verus!
