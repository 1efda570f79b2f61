//! Round trips of enum-like native types through the erased union: each
//! variant encodes as a list opening with the variant's name, followed by its
//! fields, positionally.

use turbo_tasks::input::ConcreteTaskInput;
use MultipleVariantsAndHeterogeneousFields::{Variant1, Variant2, Variant3, Variant4, Variant5};

#[derive(Clone, Eq, PartialEq, Debug)]
enum OneVariant {
    Variant,
}

fn one_variant_into(v: OneVariant) -> ConcreteTaskInput {
    match v {
        OneVariant::Variant => {
            ConcreteTaskInput::List(vec![ConcreteTaskInput::String("Variant".to_string())])
        }
    }
}

fn one_variant_from(v: &ConcreteTaskInput) -> Option<OneVariant> {
    match v {
        ConcreteTaskInput::List(items) => match items.as_slice() {
            [ConcreteTaskInput::String(tag)] if tag == "Variant" => Some(OneVariant::Variant),
            _ => None,
        },
        _ => None,
    }
}

#[test]
fn test_one_variant() {
    let input = OneVariant::Variant;
    let erased = one_variant_into(input.clone());
    let back = one_variant_from(&erased).expect("round trip failed");
    assert_eq!(back, input);
}

#[derive(Clone, Eq, PartialEq, Debug)]
enum MultipleVariantsAndHeterogeneousFields {
    Variant1,
    Variant2(u32),
    Variant3 { named: u32 },
    Variant4(u32, String),
    Variant5 { named: u32, other: String },
}

fn heterogeneous_into(v: MultipleVariantsAndHeterogeneousFields) -> ConcreteTaskInput {
    let items = match v {
        Variant1 => vec![ConcreteTaskInput::String("Variant1".to_string())],
        Variant2(a) => vec![
            ConcreteTaskInput::String("Variant2".to_string()),
            ConcreteTaskInput::U32(a),
        ],
        Variant3 { named } => vec![
            ConcreteTaskInput::String("Variant3".to_string()),
            ConcreteTaskInput::U32(named),
        ],
        Variant4(a, b) => vec![
            ConcreteTaskInput::String("Variant4".to_string()),
            ConcreteTaskInput::U32(a),
            ConcreteTaskInput::String(b),
        ],
        Variant5 { named, other } => vec![
            ConcreteTaskInput::String("Variant5".to_string()),
            ConcreteTaskInput::U32(named),
            ConcreteTaskInput::String(other),
        ],
    };
    ConcreteTaskInput::List(items)
}

fn heterogeneous_from(v: &ConcreteTaskInput) -> Option<MultipleVariantsAndHeterogeneousFields> {
    let items = match v {
        ConcreteTaskInput::List(items) => items,
        _ => return None,
    };
    match items.as_slice() {
        [ConcreteTaskInput::String(tag)] if tag == "Variant1" => Some(Variant1),
        [ConcreteTaskInput::String(tag), ConcreteTaskInput::U32(a)] if tag == "Variant2" => {
            Some(Variant2(*a))
        }
        [ConcreteTaskInput::String(tag), ConcreteTaskInput::U32(named)] if tag == "Variant3" => {
            Some(Variant3 { named: *named })
        }
        [ConcreteTaskInput::String(tag), ConcreteTaskInput::U32(a), ConcreteTaskInput::String(b)]
            if tag == "Variant4" =>
        {
            Some(Variant4(*a, b.clone()))
        }
        [ConcreteTaskInput::String(tag), ConcreteTaskInput::U32(named), ConcreteTaskInput::String(other)]
            if tag == "Variant5" =>
        {
            Some(Variant5 {
                named: *named,
                other: other.clone(),
            })
        }
        _ => None,
    }
}

#[test]
fn test_multiple_variants_and_heterogeneous_fields() {
    let input = MultipleVariantsAndHeterogeneousFields::Variant5 {
        named: 42,
        other: "42".into(),
    };
    let erased = heterogeneous_into(input.clone());
    let back = heterogeneous_from(&erased).expect("round trip failed");
    assert_eq!(back, input);
}

#[derive(Clone, Eq, PartialEq, Debug)]
struct NoFields;

fn no_fields_into(_v: NoFields) -> ConcreteTaskInput {
    ConcreteTaskInput::List(vec![])
}

fn no_fields_from(v: &ConcreteTaskInput) -> Option<NoFields> {
    match v {
        ConcreteTaskInput::List(items) if items.is_empty() => Some(NoFields),
        _ => None,
    }
}

#[test]
fn test_no_fields() {
    let input = NoFields;
    let erased = no_fields_into(input.clone());
    assert_eq!(no_fields_from(&erased).expect("round trip failed"), input);
}

#[derive(Clone, Eq, PartialEq, Debug)]
struct OneUnnamedField(u32);

fn one_unnamed_into(v: OneUnnamedField) -> ConcreteTaskInput {
    ConcreteTaskInput::List(vec![ConcreteTaskInput::U32(v.0)])
}

fn one_unnamed_from(v: &ConcreteTaskInput) -> Option<OneUnnamedField> {
    match v {
        ConcreteTaskInput::List(items) => match items.as_slice() {
            [ConcreteTaskInput::U32(a)] => Some(OneUnnamedField(*a)),
            _ => None,
        },
        _ => None,
    }
}

#[test]
fn test_one_unnamed_field() {
    let input = OneUnnamedField(42);
    let erased = one_unnamed_into(input.clone());
    assert_eq!(one_unnamed_from(&erased).expect("round trip failed"), input);
}

#[derive(Clone, Eq, PartialEq, Debug)]
struct MultipleUnnamedFields(u32, String);

fn multiple_unnamed_into(v: MultipleUnnamedFields) -> ConcreteTaskInput {
    ConcreteTaskInput::List(vec![
        ConcreteTaskInput::U32(v.0),
        ConcreteTaskInput::String(v.1),
    ])
}

fn multiple_unnamed_from(v: &ConcreteTaskInput) -> Option<MultipleUnnamedFields> {
    match v {
        ConcreteTaskInput::List(items) => match items.as_slice() {
            [ConcreteTaskInput::U32(a), ConcreteTaskInput::String(b)] => {
                Some(MultipleUnnamedFields(*a, b.clone()))
            }
            _ => None,
        },
        _ => None,
    }
}

#[test]
fn test_multiple_unnamed_fields() {
    let input = MultipleUnnamedFields(42, "42".into());
    let erased = multiple_unnamed_into(input.clone());
    assert_eq!(multiple_unnamed_from(&erased).expect("round trip failed"), input);
}

#[derive(Clone, Eq, PartialEq, Debug)]
struct OneNamedField {
    named: u32,
}

fn one_named_into(v: OneNamedField) -> ConcreteTaskInput {
    ConcreteTaskInput::List(vec![ConcreteTaskInput::U32(v.named)])
}

fn one_named_from(v: &ConcreteTaskInput) -> Option<OneNamedField> {
    match v {
        ConcreteTaskInput::List(items) => match items.as_slice() {
            [ConcreteTaskInput::U32(named)] => Some(OneNamedField { named: *named }),
            _ => None,
        },
        _ => None,
    }
}

#[test]
fn test_one_named_field() {
    let input = OneNamedField { named: 42 };
    let erased = one_named_into(input.clone());
    assert_eq!(one_named_from(&erased).expect("round trip failed"), input);
}

#[derive(Clone, Eq, PartialEq, Debug)]
struct MultipleNamedFields {
    named: u32,
    other: String,
}

fn multiple_named_into(v: MultipleNamedFields) -> ConcreteTaskInput {
    ConcreteTaskInput::List(vec![
        ConcreteTaskInput::U32(v.named),
        ConcreteTaskInput::String(v.other),
    ])
}

fn multiple_named_from(v: &ConcreteTaskInput) -> Option<MultipleNamedFields> {
    match v {
        ConcreteTaskInput::List(items) => match items.as_slice() {
            [ConcreteTaskInput::U32(named), ConcreteTaskInput::String(other)] => {
                Some(MultipleNamedFields {
                    named: *named,
                    other: other.clone(),
                })
            }
            _ => None,
        },
        _ => None,
    }
}

#[test]
fn test_multiple_named_fields() {
    let input = MultipleNamedFields {
        named: 42,
        other: "42".into(),
    };
    let erased = multiple_named_into(input.clone());
    assert_eq!(multiple_named_from(&erased).expect("round trip failed"), input);
}

#[derive(Clone, Eq, PartialEq, Debug)]
struct GenericField<T>(T);

fn generic_u32_into(v: GenericField<u32>) -> ConcreteTaskInput {
    ConcreteTaskInput::List(vec![ConcreteTaskInput::U32(v.0)])
}

fn generic_u32_from(v: &ConcreteTaskInput) -> Option<GenericField<u32>> {
    match v {
        ConcreteTaskInput::List(items) => match items.as_slice() {
            [ConcreteTaskInput::U32(a)] => Some(GenericField(*a)),
            _ => None,
        },
        _ => None,
    }
}

fn generic_string_into(v: GenericField<String>) -> ConcreteTaskInput {
    ConcreteTaskInput::List(vec![ConcreteTaskInput::String(v.0)])
}

fn generic_string_from(v: &ConcreteTaskInput) -> Option<GenericField<String>> {
    match v {
        ConcreteTaskInput::List(items) => match items.as_slice() {
            [ConcreteTaskInput::String(a)] => Some(GenericField(a.clone())),
            _ => None,
        },
        _ => None,
    }
}

#[test]
fn test_generic_field() {
    let input = GenericField(42u32);
    let erased = generic_u32_into(input.clone());
    assert_eq!(generic_u32_from(&erased).expect("round trip failed"), input);

    let input = GenericField("42".to_string());
    let erased = generic_string_into(input.clone());
    assert_eq!(generic_string_from(&erased).expect("round trip failed"), input);
}

// An enum with no variants cannot be constructed at runtime; only its
// conversion code is exercised for shape.
#[derive(Clone)]
enum NoVariants {}

fn no_variants_into(v: NoVariants) -> ConcreteTaskInput {
    match v {}
}

#[test]
fn test_no_variant() {
    // Nothing to convert; the converter above merely has to exist.
    let _ = no_variants_into;
}

#[derive(Clone, Eq, PartialEq, Debug)]
enum MultipleVariants {
    Variant1,
    Variant2,
}

fn multiple_variants_into(v: MultipleVariants) -> ConcreteTaskInput {
    let tag = match v {
        MultipleVariants::Variant1 => "Variant1",
        MultipleVariants::Variant2 => "Variant2",
    };
    ConcreteTaskInput::List(vec![ConcreteTaskInput::String(tag.to_string())])
}

fn multiple_variants_from(v: &ConcreteTaskInput) -> Option<MultipleVariants> {
    match v {
        ConcreteTaskInput::List(items) => match items.as_slice() {
            [ConcreteTaskInput::String(tag)] if tag == "Variant1" => {
                Some(MultipleVariants::Variant1)
            }
            [ConcreteTaskInput::String(tag)] if tag == "Variant2" => {
                Some(MultipleVariants::Variant2)
            }
            _ => None,
        },
        _ => None,
    }
}

#[test]
fn test_multiple_variants() {
    let input = MultipleVariants::Variant2;
    let erased = multiple_variants_into(input.clone());
    assert_eq!(multiple_variants_from(&erased).expect("round trip failed"), input);
}

#[derive(Clone, Eq, PartialEq, Debug)]
enum NestedVariants {
    Variant1,
    Variant2(MultipleVariantsAndHeterogeneousFields),
    Variant3 { named: OneVariant },
    Variant4(OneVariant, String),
    Variant5 { named: OneVariant, other: String },
}

fn nested_into(v: NestedVariants) -> ConcreteTaskInput {
    let items = match v {
        NestedVariants::Variant1 => vec![ConcreteTaskInput::String("Variant1".to_string())],
        NestedVariants::Variant2(inner) => vec![
            ConcreteTaskInput::String("Variant2".to_string()),
            heterogeneous_into(inner),
        ],
        NestedVariants::Variant3 { named } => vec![
            ConcreteTaskInput::String("Variant3".to_string()),
            one_variant_into(named),
        ],
        NestedVariants::Variant4(named, other) => vec![
            ConcreteTaskInput::String("Variant4".to_string()),
            one_variant_into(named),
            ConcreteTaskInput::String(other),
        ],
        NestedVariants::Variant5 { named, other } => vec![
            ConcreteTaskInput::String("Variant5".to_string()),
            one_variant_into(named),
            ConcreteTaskInput::String(other),
        ],
    };
    ConcreteTaskInput::List(items)
}

fn nested_from(v: &ConcreteTaskInput) -> Option<NestedVariants> {
    let items = match v {
        ConcreteTaskInput::List(items) => items,
        _ => return None,
    };
    match items.as_slice() {
        [ConcreteTaskInput::String(tag)] if tag == "Variant1" => Some(NestedVariants::Variant1),
        [ConcreteTaskInput::String(tag), inner] if tag == "Variant2" => {
            Some(NestedVariants::Variant2(heterogeneous_from(inner)?))
        }
        [ConcreteTaskInput::String(tag), inner] if tag == "Variant3" => {
            Some(NestedVariants::Variant3 {
                named: one_variant_from(inner)?,
            })
        }
        [ConcreteTaskInput::String(tag), inner, ConcreteTaskInput::String(other)]
            if tag == "Variant4" =>
        {
            Some(NestedVariants::Variant4(one_variant_from(inner)?, other.clone()))
        }
        [ConcreteTaskInput::String(tag), inner, ConcreteTaskInput::String(other)]
            if tag == "Variant5" =>
        {
            Some(NestedVariants::Variant5 {
                named: one_variant_from(inner)?,
                other: other.clone(),
            })
        }
        _ => None,
    }
}

#[test]
fn test_nested_variants() {
    let input = NestedVariants::Variant5 {
        named: OneVariant::Variant,
        other: "42".into(),
    };
    let erased = nested_into(input.clone());
    assert_eq!(nested_from(&erased).expect("round trip failed"), input);

    let input = NestedVariants::Variant2(MultipleVariantsAndHeterogeneousFields::Variant5 {
        named: 42,
        other: "42".into(),
    });
    let erased = nested_into(input.clone());
    assert_eq!(nested_from(&erased).expect("round trip failed"), input);
}
