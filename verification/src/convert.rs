//! The conversion layer: a symmetric pair of mappings between native values
//! and the erased union. Erasing a native value is total, except that an
//! absent optional may not be nested directly inside another optional — the
//! two would collapse to the same encoding. Recovering a native value is
//! partial: each native type accepts only its matching variant and reports
//! the expected type otherwise.

use vstd::prelude::*;
use vstd::string::StringExecFns;
use crate::ValueTypeId;
use crate::erased::{ErasedValue, SharedReference, SharedValue, TransientSharedValue};
use crate::input::{ConcreteTaskInput, RawVc};

verus! {

/// A from-erased conversion was handed the wrong variant, or a container
/// holding the wrong dynamic type.
#[derive(Debug)]
pub struct ConversionError {
    /// The native type the conversion expected, for diagnostics.
    pub expected: String,
}

/// Bidirectional conversion between a native type and the erased union.
///
/// `encodes` is the contract's heart: it relates a native value to each of
/// its erased forms. `into_input` produces an encoding; `try_from` recovers a
/// value that encodes its argument; `encodes_deterministic` makes the round
/// trip close: two values with a common erased form agree, so decoding an
/// encoding of `x` gives back `x`, up to deep view.
pub trait FromTaskInput: Sized + DeepView {
    /// Whether `v` is an erased form of `self`.
    spec fn encodes(&self, v: &ConcreteTaskInput) -> bool;

    /// Whether `self` has an erased form at all. Only an absent optional
    /// nested directly inside a present optional has none.
    spec fn encodable(&self) -> bool;

    /// Whether the erased form of `self` is the absence marker.
    spec fn erases_to_nothing(&self) -> bool;

    /// The erased values `try_from` recovers a native value from.
    spec fn accepts(v: &ConcreteTaskInput) -> bool;

    /// Every erased form of a value is accepted back: a round trip never
    /// fails at the decoding end.
    proof fn encodes_accepts(&self, v: &ConcreteTaskInput)
        requires
            self.encodes(v),
        ensures
            Self::accepts(v),
    ;

    /// Decoding is unambiguous: two native values with a common erased form
    /// are the same value, up to deep view.
    proof fn encodes_deterministic(x: &Self, y: &Self, v: &ConcreteTaskInput)
        requires
            x.encodes(v),
            y.encodes(v),
        ensures
            x.deep_view() == y.deep_view(),
    ;

    /// Erases `self`, rejecting exactly the values without an erased form.
    fn try_into_input(self) -> (r: Option<ConcreteTaskInput>)
        ensures
            r is Some <==> self.encodable(),
            r matches Some(v) ==> self.encodes(&v) && (v is Nothing <==> self.erases_to_nothing()),
    ;

    /// Erases `self`. Total on every encodable value.
    fn into_input(self) -> (r: ConcreteTaskInput)
        requires
            self.encodable(),
        ensures
            self.encodes(&r),
            r is Nothing <==> self.erases_to_nothing(),
    {
        match self.try_into_input() {
            Some(v) => v,
            None => vstd::pervasive::unreached(),
        }
    }

    /// Recovers a native value from an erased one: succeeds exactly on the
    /// values this type accepts, and recovers a value the argument encodes.
    fn try_from(value: &ConcreteTaskInput) -> (r: Result<Self, ConversionError>)
        ensures
            r is Ok <==> Self::accepts(value),
            r matches Ok(x) ==> x.encodes(value),
    ;
}

/// The round-trip law. `into_input` ensures its result is an erased form of
/// the value erased; `try_from` ensures its result encodes the value decoded;
/// so decoding an erased form of `x` recovers `x` itself, up to deep view —
/// and by `encodes_accepts` that decoding never fails.
pub proof fn lemma_round_trip<T: FromTaskInput>(x: &T, v: &ConcreteTaskInput, y: &T)
    requires
        x.encodes(v),
        y.encodes(v),
    ensures
        x.deep_view() == y.deep_view(),
        T::accepts(v),
{
    T::encodes_deterministic(x, y, v);
    x.encodes_accepts(v);
}

impl FromTaskInput for bool {
    open spec fn encodes(&self, v: &ConcreteTaskInput) -> bool {
        *v == ConcreteTaskInput::Bool(*self)
    }

    open spec fn encodable(&self) -> bool {
        true
    }

    open spec fn erases_to_nothing(&self) -> bool {
        false
    }

    open spec fn accepts(v: &ConcreteTaskInput) -> bool {
        v is Bool
    }

    proof fn encodes_accepts(&self, v: &ConcreteTaskInput) {
    }

    proof fn encodes_deterministic(x: &Self, y: &Self, v: &ConcreteTaskInput) {
    }

    fn try_into_input(self) -> (r: Option<ConcreteTaskInput>) {
        Some(ConcreteTaskInput::Bool(self))
    }

    fn try_from(value: &ConcreteTaskInput) -> (r: Result<Self, ConversionError>) {
        match value {
            ConcreteTaskInput::Bool(b) => Ok(*b),
            _ => Err(ConversionError { expected: String::from_str("bool") }),
        }
    }
}

impl FromTaskInput for String {
    open spec fn encodes(&self, v: &ConcreteTaskInput) -> bool {
        match v {
            ConcreteTaskInput::String(s) => s@ == self@,
            _ => false,
        }
    }

    open spec fn encodable(&self) -> bool {
        true
    }

    open spec fn erases_to_nothing(&self) -> bool {
        false
    }

    open spec fn accepts(v: &ConcreteTaskInput) -> bool {
        v is String
    }

    proof fn encodes_accepts(&self, v: &ConcreteTaskInput) {
    }

    proof fn encodes_deterministic(x: &Self, y: &Self, v: &ConcreteTaskInput) {
    }

    fn try_into_input(self) -> (r: Option<ConcreteTaskInput>) {
        Some(ConcreteTaskInput::String(self))
    }

    fn try_from(value: &ConcreteTaskInput) -> (r: Result<Self, ConversionError>) {
        match value {
            ConcreteTaskInput::String(s) => Ok(s.clone()),
            _ => Err(ConversionError { expected: String::from_str("string") }),
        }
    }
}

impl FromTaskInput for RawVc {
    open spec fn encodes(&self, v: &ConcreteTaskInput) -> bool {
        match self {
            RawVc::TaskOutput(t) => *v == ConcreteTaskInput::TaskOutput(*t),
            RawVc::TaskCell(t, c) => *v == ConcreteTaskInput::TaskCell(*t, *c),
        }
    }

    open spec fn encodable(&self) -> bool {
        true
    }

    open spec fn erases_to_nothing(&self) -> bool {
        false
    }

    open spec fn accepts(v: &ConcreteTaskInput) -> bool {
        v is TaskOutput || v is TaskCell
    }

    proof fn encodes_accepts(&self, v: &ConcreteTaskInput) {
    }

    proof fn encodes_deterministic(x: &Self, y: &Self, v: &ConcreteTaskInput) {
    }

    fn try_into_input(self) -> (r: Option<ConcreteTaskInput>) {
        Some(ConcreteTaskInput::from_raw_vc(self))
    }

    fn try_from(value: &ConcreteTaskInput) -> (r: Result<Self, ConversionError>) {
        match value {
            ConcreteTaskInput::TaskOutput(t) => Ok(RawVc::TaskOutput(*t)),
            ConcreteTaskInput::TaskCell(t, c) => Ok(RawVc::TaskCell(*t, *c)),
            _ => Err(ConversionError { expected: String::from_str("task reference") }),
        }
    }
}

impl DeepView for RawVc {
    type V = RawVc;

    open spec fn deep_view(&self) -> RawVc {
        *self
    }
}

impl<T: FromTaskInput> FromTaskInput for Option<T> {
    /// Absence erases to the absence marker; a present value erases as the
    /// value itself. The two stay distinguishable because a present value is
    /// never allowed to erase to the absence marker.
    open spec fn encodes(&self, v: &ConcreteTaskInput) -> bool {
        match self {
            None => *v is Nothing,
            Some(x) => x.encodes(v) && !(*v is Nothing),
        }
    }

    open spec fn encodable(&self) -> bool {
        match self {
            None => true,
            Some(x) => x.encodable() && !x.erases_to_nothing(),
        }
    }

    open spec fn erases_to_nothing(&self) -> bool {
        self is None
    }

    open spec fn accepts(v: &ConcreteTaskInput) -> bool {
        *v is Nothing || T::accepts(v)
    }

    proof fn encodes_accepts(&self, v: &ConcreteTaskInput) {
        match self {
            None => {},
            Some(x) => {
                x.encodes_accepts(v);
            },
        }
    }

    proof fn encodes_deterministic(x: &Self, y: &Self, v: &ConcreteTaskInput) {
        match (x, y) {
            (Some(xx), Some(yy)) => {
                T::encodes_deterministic(xx, yy, v);
            },
            _ => {},
        }
    }

    fn try_into_input(self) -> (r: Option<ConcreteTaskInput>) {
        match self {
            None => Some(ConcreteTaskInput::Nothing),
            Some(x) => {
                match x.try_into_input() {
                    None => None,
                    Some(v) => {
                        if v.is_nothing() {
                            // An absent value inside a present optional would
                            // collapse to the encoding of the absent optional.
                            None
                        } else {
                            Some(v)
                        }
                    },
                }
            },
        }
    }

    fn try_from(value: &ConcreteTaskInput) -> (r: Result<Self, ConversionError>) {
        if value.is_nothing() {
            Ok(None)
        } else {
            match T::try_from(value) {
                Ok(x) => Ok(Some(x)),
                Err(e) => Err(e),
            }
        }
    }
}

impl<T: FromTaskInput> FromTaskInput for Vec<T> {
    /// A vector erases to a list, elementwise and in order.
    open spec fn encodes(&self, v: &ConcreteTaskInput) -> bool {
        match v {
            ConcreteTaskInput::List(l) => l@.len() == self@.len() && (forall|i: int|
                0 <= i < self@.len() ==> #[trigger] self@[i].encodes(&l@[i])),
            _ => false,
        }
    }

    open spec fn encodable(&self) -> bool {
        forall|i: int| 0 <= i < self@.len() ==> #[trigger] self@[i].encodable()
    }

    open spec fn erases_to_nothing(&self) -> bool {
        false
    }

    open spec fn accepts(v: &ConcreteTaskInput) -> bool {
        match v {
            ConcreteTaskInput::List(l) => forall|i: int|
                0 <= i < l@.len() ==> #[trigger] T::accepts(&l@[i]),
            _ => false,
        }
    }

    proof fn encodes_accepts(&self, v: &ConcreteTaskInput) {
        match v {
            ConcreteTaskInput::List(l) => {
                assert forall|i: int| 0 <= i < l@.len() implies #[trigger] T::accepts(
                    &l@[i],
                ) by {
                    assert(self@[i].encodes(&l@[i]));
                    self@[i].encodes_accepts(&l@[i]);
                }
            },
            _ => {},
        }
    }

    proof fn encodes_deterministic(x: &Self, y: &Self, v: &ConcreteTaskInput) {
        match v {
            ConcreteTaskInput::List(l) => {
                assert forall|i: int| 0 <= i < x@.len() implies #[trigger] x@[i].deep_view()
                    == y@[i].deep_view() by {
                    assert(x@[i].encodes(&l@[i]));
                    assert(y@[i].encodes(&l@[i]));
                    T::encodes_deterministic(&x@[i], &y@[i], &l@[i]);
                }
                assert(x.deep_view() =~= y.deep_view());
            },
            _ => {},
        }
    }

    #[verifier::loop_isolation(false)]
    fn try_into_input(self) -> (r: Option<ConcreteTaskInput>) {
        let ghost orig = self@;
        let mut rest = self;
        let mut out: Vec<ConcreteTaskInput> = Vec::new();
        while rest.len() > 0
            invariant
                out@.len() + rest@.len() == orig.len(),
                rest@ =~= orig.skip(out@.len() as int),
                forall|j: int| 0 <= j < out@.len() ==> #[trigger] orig[j].encodes(&out@[j]),
                forall|j: int| 0 <= j < out@.len() ==> #[trigger] orig[j].encodable(),
            decreases rest@.len(),
        {
            let ghost k = out@.len() as int;
            let x = rest.remove(0);
            proof {
                assert(orig.skip(k)[0] == orig[k]);
                assert(x == orig[k]);
                assert(rest@ =~= orig.skip(k + 1));
            }
            match x.try_into_input() {
                None => {
                    proof {
                        assert(!orig[k].encodable());
                    }
                    return None;
                },
                Some(v) => {
                    out.push(v);
                },
            }
        }
        Some(ConcreteTaskInput::List(out))
    }

    #[verifier::loop_isolation(false)]
    fn try_from(value: &ConcreteTaskInput) -> (r: Result<Self, ConversionError>) {
        match value {
            ConcreteTaskInput::List(l) => {
                let mut out: Vec<T> = Vec::new();
                let mut i: usize = 0;
                while i < l.len()
                    invariant
                        i <= l@.len(),
                        out@.len() == i,
                        forall|j: int| 0 <= j < i ==> #[trigger] out@[j].encodes(&l@[j]),
                        forall|j: int| 0 <= j < i ==> #[trigger] T::accepts(&l@[j]),
                    decreases l@.len() - i,
                {
                    match T::try_from(&l[i]) {
                        Ok(x) => {
                            out.push(x);
                        },
                        Err(e) => {
                            proof {
                                assert(!T::accepts(&l@[i as int]));
                            }
                            return Err(e);
                        },
                    }
                    i = i + 1;
                }
                Ok(out)
            },
            _ => Err(ConversionError { expected: String::from_str("list") }),
        }
    }
}

impl FromTaskInput for usize {
    open spec fn encodes(&self, v: &ConcreteTaskInput) -> bool {
        *v == ConcreteTaskInput::Usize(*self)
    }

    open spec fn encodable(&self) -> bool {
        true
    }

    open spec fn erases_to_nothing(&self) -> bool {
        false
    }

    open spec fn accepts(v: &ConcreteTaskInput) -> bool {
        v is Usize
    }

    proof fn encodes_accepts(&self, v: &ConcreteTaskInput) {
    }

    proof fn encodes_deterministic(x: &Self, y: &Self, v: &ConcreteTaskInput) {
    }

    fn try_into_input(self) -> (r: Option<ConcreteTaskInput>) {
        Some(ConcreteTaskInput::Usize(self))
    }

    fn try_from(value: &ConcreteTaskInput) -> (r: Result<Self, ConversionError>) {
        match value {
            ConcreteTaskInput::Usize(x) => Ok(*x),
            _ => Err(ConversionError { expected: String::from_str("usize") }),
        }
    }
}

impl FromTaskInput for i8 {
    open spec fn encodes(&self, v: &ConcreteTaskInput) -> bool {
        *v == ConcreteTaskInput::I8(*self)
    }

    open spec fn encodable(&self) -> bool {
        true
    }

    open spec fn erases_to_nothing(&self) -> bool {
        false
    }

    open spec fn accepts(v: &ConcreteTaskInput) -> bool {
        v is I8
    }

    proof fn encodes_accepts(&self, v: &ConcreteTaskInput) {
    }

    proof fn encodes_deterministic(x: &Self, y: &Self, v: &ConcreteTaskInput) {
    }

    fn try_into_input(self) -> (r: Option<ConcreteTaskInput>) {
        Some(ConcreteTaskInput::I8(self))
    }

    fn try_from(value: &ConcreteTaskInput) -> (r: Result<Self, ConversionError>) {
        match value {
            ConcreteTaskInput::I8(x) => Ok(*x),
            _ => Err(ConversionError { expected: String::from_str("i8") }),
        }
    }
}

impl FromTaskInput for u8 {
    open spec fn encodes(&self, v: &ConcreteTaskInput) -> bool {
        *v == ConcreteTaskInput::U8(*self)
    }

    open spec fn encodable(&self) -> bool {
        true
    }

    open spec fn erases_to_nothing(&self) -> bool {
        false
    }

    open spec fn accepts(v: &ConcreteTaskInput) -> bool {
        v is U8
    }

    proof fn encodes_accepts(&self, v: &ConcreteTaskInput) {
    }

    proof fn encodes_deterministic(x: &Self, y: &Self, v: &ConcreteTaskInput) {
    }

    fn try_into_input(self) -> (r: Option<ConcreteTaskInput>) {
        Some(ConcreteTaskInput::U8(self))
    }

    fn try_from(value: &ConcreteTaskInput) -> (r: Result<Self, ConversionError>) {
        match value {
            ConcreteTaskInput::U8(x) => Ok(*x),
            _ => Err(ConversionError { expected: String::from_str("u8") }),
        }
    }
}

impl FromTaskInput for i16 {
    open spec fn encodes(&self, v: &ConcreteTaskInput) -> bool {
        *v == ConcreteTaskInput::I16(*self)
    }

    open spec fn encodable(&self) -> bool {
        true
    }

    open spec fn erases_to_nothing(&self) -> bool {
        false
    }

    open spec fn accepts(v: &ConcreteTaskInput) -> bool {
        v is I16
    }

    proof fn encodes_accepts(&self, v: &ConcreteTaskInput) {
    }

    proof fn encodes_deterministic(x: &Self, y: &Self, v: &ConcreteTaskInput) {
    }

    fn try_into_input(self) -> (r: Option<ConcreteTaskInput>) {
        Some(ConcreteTaskInput::I16(self))
    }

    fn try_from(value: &ConcreteTaskInput) -> (r: Result<Self, ConversionError>) {
        match value {
            ConcreteTaskInput::I16(x) => Ok(*x),
            _ => Err(ConversionError { expected: String::from_str("i16") }),
        }
    }
}

impl FromTaskInput for u16 {
    open spec fn encodes(&self, v: &ConcreteTaskInput) -> bool {
        *v == ConcreteTaskInput::U16(*self)
    }

    open spec fn encodable(&self) -> bool {
        true
    }

    open spec fn erases_to_nothing(&self) -> bool {
        false
    }

    open spec fn accepts(v: &ConcreteTaskInput) -> bool {
        v is U16
    }

    proof fn encodes_accepts(&self, v: &ConcreteTaskInput) {
    }

    proof fn encodes_deterministic(x: &Self, y: &Self, v: &ConcreteTaskInput) {
    }

    fn try_into_input(self) -> (r: Option<ConcreteTaskInput>) {
        Some(ConcreteTaskInput::U16(self))
    }

    fn try_from(value: &ConcreteTaskInput) -> (r: Result<Self, ConversionError>) {
        match value {
            ConcreteTaskInput::U16(x) => Ok(*x),
            _ => Err(ConversionError { expected: String::from_str("u16") }),
        }
    }
}

impl FromTaskInput for i32 {
    open spec fn encodes(&self, v: &ConcreteTaskInput) -> bool {
        *v == ConcreteTaskInput::I32(*self)
    }

    open spec fn encodable(&self) -> bool {
        true
    }

    open spec fn erases_to_nothing(&self) -> bool {
        false
    }

    open spec fn accepts(v: &ConcreteTaskInput) -> bool {
        v is I32
    }

    proof fn encodes_accepts(&self, v: &ConcreteTaskInput) {
    }

    proof fn encodes_deterministic(x: &Self, y: &Self, v: &ConcreteTaskInput) {
    }

    fn try_into_input(self) -> (r: Option<ConcreteTaskInput>) {
        Some(ConcreteTaskInput::I32(self))
    }

    fn try_from(value: &ConcreteTaskInput) -> (r: Result<Self, ConversionError>) {
        match value {
            ConcreteTaskInput::I32(x) => Ok(*x),
            _ => Err(ConversionError { expected: String::from_str("i32") }),
        }
    }
}

impl FromTaskInput for u32 {
    open spec fn encodes(&self, v: &ConcreteTaskInput) -> bool {
        *v == ConcreteTaskInput::U32(*self)
    }

    open spec fn encodable(&self) -> bool {
        true
    }

    open spec fn erases_to_nothing(&self) -> bool {
        false
    }

    open spec fn accepts(v: &ConcreteTaskInput) -> bool {
        v is U32
    }

    proof fn encodes_accepts(&self, v: &ConcreteTaskInput) {
    }

    proof fn encodes_deterministic(x: &Self, y: &Self, v: &ConcreteTaskInput) {
    }

    fn try_into_input(self) -> (r: Option<ConcreteTaskInput>) {
        Some(ConcreteTaskInput::U32(self))
    }

    fn try_from(value: &ConcreteTaskInput) -> (r: Result<Self, ConversionError>) {
        match value {
            ConcreteTaskInput::U32(x) => Ok(*x),
            _ => Err(ConversionError { expected: String::from_str("u32") }),
        }
    }
}

impl FromTaskInput for u64 {
    open spec fn encodes(&self, v: &ConcreteTaskInput) -> bool {
        *v == ConcreteTaskInput::U64(*self)
    }

    open spec fn encodable(&self) -> bool {
        true
    }

    open spec fn erases_to_nothing(&self) -> bool {
        false
    }

    open spec fn accepts(v: &ConcreteTaskInput) -> bool {
        v is U64
    }

    proof fn encodes_accepts(&self, v: &ConcreteTaskInput) {
    }

    proof fn encodes_deterministic(x: &Self, y: &Self, v: &ConcreteTaskInput) {
    }

    fn try_into_input(self) -> (r: Option<ConcreteTaskInput>) {
        Some(ConcreteTaskInput::U64(self))
    }

    fn try_from(value: &ConcreteTaskInput) -> (r: Result<Self, ConversionError>) {
        match value {
            ConcreteTaskInput::U64(x) => Ok(*x),
            _ => Err(ConversionError { expected: String::from_str("u64") }),
        }
    }
}

/// A value of a registered type, as a task argument: erases to a
/// serializable-capable container that captures the type identifier.
pub struct Value {
    /// The registered type of the wrapped value.
    pub type_id: ValueTypeId,
    /// The shared allocation holding the wrapped value.
    pub payload: ErasedValue,
}

impl Value {
    /// Wraps an allocated value of registered type `type_id`.
    pub fn new(type_id: ValueTypeId, payload: ErasedValue) -> (r: Value)
        ensures
            r.type_id == type_id,
            r.payload == payload,
    {
        Value { type_id, payload }
    }
}

impl DeepView for Value {
    type V = (ValueTypeId, u64, u64, Seq<u8>);

    open spec fn deep_view(&self) -> (ValueTypeId, u64, u64, Seq<u8>) {
        (self.type_id, self.payload.type_tag, self.payload.alloc_id, self.payload.content@)
    }
}

impl FromTaskInput for Value {
    open spec fn encodes(&self, v: &ConcreteTaskInput) -> bool {
        match v {
            ConcreteTaskInput::SharedValue(SharedValue(ty, p)) => *ty == Some(self.type_id)
                && p.same_handle(&self.payload),
            _ => false,
        }
    }

    open spec fn encodable(&self) -> bool {
        true
    }

    open spec fn erases_to_nothing(&self) -> bool {
        false
    }

    open spec fn accepts(v: &ConcreteTaskInput) -> bool {
        match v {
            ConcreteTaskInput::SharedValue(SharedValue(ty, _)) => ty is Some,
            _ => false,
        }
    }

    proof fn encodes_accepts(&self, v: &ConcreteTaskInput) {
    }

    proof fn encodes_deterministic(x: &Self, y: &Self, v: &ConcreteTaskInput) {
    }

    fn try_into_input(self) -> (r: Option<ConcreteTaskInput>) {
        Some(ConcreteTaskInput::SharedValue(SharedValue(Some(self.type_id), self.payload)))
    }

    fn try_from(value: &ConcreteTaskInput) -> (r: Result<Self, ConversionError>) {
        match value {
            ConcreteTaskInput::SharedValue(SharedValue(ty_opt, p)) => {
                match ty_opt {
                    Some(ty) => Ok(Value { type_id: *ty, payload: p.clone() }),
                    None => Err(ConversionError { expected: String::from_str("shared value") }),
                }
            },
            _ => Err(ConversionError { expected: String::from_str("shared value") }),
        }
    }
}

/// A transient value, as a task argument: erases to the transient container,
/// which is never linked to the registry and never serialized.
pub struct TransientValue {
    /// The shared allocation holding the wrapped value.
    pub payload: ErasedValue,
}

impl TransientValue {
    /// Wraps an allocated transient value.
    pub fn new(payload: ErasedValue) -> (r: TransientValue)
        ensures
            r.payload == payload,
    {
        TransientValue { payload }
    }
}

impl DeepView for TransientValue {
    type V = (u64, u64, Seq<u8>);

    open spec fn deep_view(&self) -> (u64, u64, Seq<u8>) {
        (self.payload.type_tag, self.payload.alloc_id, self.payload.content@)
    }
}

impl FromTaskInput for TransientValue {
    open spec fn encodes(&self, v: &ConcreteTaskInput) -> bool {
        match v {
            ConcreteTaskInput::TransientSharedValue(TransientSharedValue(p)) => p.same_handle(
                &self.payload,
            ),
            _ => false,
        }
    }

    open spec fn encodable(&self) -> bool {
        true
    }

    open spec fn erases_to_nothing(&self) -> bool {
        false
    }

    open spec fn accepts(v: &ConcreteTaskInput) -> bool {
        v is TransientSharedValue
    }

    proof fn encodes_accepts(&self, v: &ConcreteTaskInput) {
    }

    proof fn encodes_deterministic(x: &Self, y: &Self, v: &ConcreteTaskInput) {
    }

    fn try_into_input(self) -> (r: Option<ConcreteTaskInput>) {
        Some(ConcreteTaskInput::TransientSharedValue(TransientSharedValue(self.payload)))
    }

    fn try_from(value: &ConcreteTaskInput) -> (r: Result<Self, ConversionError>) {
        match value {
            ConcreteTaskInput::TransientSharedValue(TransientSharedValue(p)) => Ok(
                TransientValue { payload: p.clone() },
            ),
            _ => Err(ConversionError { expected: String::from_str("transient value") }),
        }
    }
}

/// A transient instance, as a task argument: erases to an untyped shared
/// reference, which reports no traits and is never serialized.
pub struct TransientInstance {
    /// The shared allocation holding the instance.
    pub payload: ErasedValue,
}

impl TransientInstance {
    /// Wraps an allocated transient instance.
    pub fn new(payload: ErasedValue) -> (r: TransientInstance)
        ensures
            r.payload == payload,
    {
        TransientInstance { payload }
    }
}

impl DeepView for TransientInstance {
    type V = (u64, u64, Seq<u8>);

    open spec fn deep_view(&self) -> (u64, u64, Seq<u8>) {
        (self.payload.type_tag, self.payload.alloc_id, self.payload.content@)
    }
}

impl FromTaskInput for TransientInstance {
    open spec fn encodes(&self, v: &ConcreteTaskInput) -> bool {
        match v {
            ConcreteTaskInput::SharedReference(SharedReference(ty, p)) => *ty is None
                && p.same_handle(&self.payload),
            _ => false,
        }
    }

    open spec fn encodable(&self) -> bool {
        true
    }

    open spec fn erases_to_nothing(&self) -> bool {
        false
    }

    open spec fn accepts(v: &ConcreteTaskInput) -> bool {
        match v {
            ConcreteTaskInput::SharedReference(SharedReference(ty, _)) => ty is None,
            _ => false,
        }
    }

    proof fn encodes_accepts(&self, v: &ConcreteTaskInput) {
    }

    proof fn encodes_deterministic(x: &Self, y: &Self, v: &ConcreteTaskInput) {
    }

    fn try_into_input(self) -> (r: Option<ConcreteTaskInput>) {
        Some(ConcreteTaskInput::SharedReference(SharedReference(None, self.payload)))
    }

    fn try_from(value: &ConcreteTaskInput) -> (r: Result<Self, ConversionError>) {
        match value {
            ConcreteTaskInput::SharedReference(SharedReference(ty_opt, p)) => {
                match ty_opt {
                    None => Ok(TransientInstance { payload: p.clone() }),
                    Some(_) => Err(
                        ConversionError { expected: String::from_str("transient instance") },
                    ),
                }
            },
            _ => Err(ConversionError { expected: String::from_str("transient instance") }),
        }
    }
}

} // verus!
