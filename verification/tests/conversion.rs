//! Round trips of the native types the conversion layer supports, the
//! optional-collapse guard, and the from-erased failure cases.

use turbo_tasks::convert::{FromTaskInput, TransientInstance, TransientValue, Value};
use turbo_tasks::erased::SharedAllocator;
use turbo_tasks::input::{ConcreteTaskInput, RawVc};

fn round_trip<T>(x: T) -> T
where
    T: FromTaskInput,
{
    let erased = x.into_input();
    <T as FromTaskInput>::try_from(&erased).expect("conversion back failed")
}

#[test]
fn scalar_round_trips() {
    assert_eq!(round_trip(true), true);
    assert_eq!(round_trip(false), false);
    assert_eq!(round_trip(42u8), 42u8);
    assert_eq!(round_trip(-42i8), -42i8);
    assert_eq!(round_trip(42u16), 42u16);
    assert_eq!(round_trip(-42i16), -42i16);
    assert_eq!(round_trip(42u32), 42u32);
    assert_eq!(round_trip(-42i32), -42i32);
    assert_eq!(round_trip(42u64), 42u64);
    assert_eq!(round_trip(42usize), 42usize);
    assert_eq!(round_trip("hello".to_string()), "hello".to_string());
}

#[test]
fn scalar_exact_encodings() {
    assert_eq!(7u32.into_input(), ConcreteTaskInput::U32(7));
    assert_eq!(7usize.into_input(), ConcreteTaskInput::Usize(7));
    assert_eq!(true.into_input(), ConcreteTaskInput::Bool(true));
    assert_eq!(
        "x".to_string().into_input(),
        ConcreteTaskInput::String("x".to_string())
    );
}

#[test]
fn raw_vc_round_trip() {
    let erased = RawVc::TaskOutput(3).into_input();
    assert_eq!(erased, ConcreteTaskInput::TaskOutput(3));
    assert_eq!(
        <RawVc as FromTaskInput>::try_from(&erased).unwrap(),
        RawVc::TaskOutput(3)
    );
    let erased = RawVc::TaskCell(3, 1).into_input();
    assert_eq!(erased, ConcreteTaskInput::TaskCell(3, 1));
    assert_eq!(
        <RawVc as FromTaskInput>::try_from(&erased).unwrap(),
        RawVc::TaskCell(3, 1)
    );
}

#[test]
fn vec_round_trip() {
    let xs: Vec<u32> = vec![1, 2, 3];
    assert_eq!(round_trip(xs.clone()), xs);
    let erased = xs.into_input();
    assert_eq!(
        erased,
        ConcreteTaskInput::List(vec![
            ConcreteTaskInput::U32(1),
            ConcreteTaskInput::U32(2),
            ConcreteTaskInput::U32(3),
        ])
    );
    let empty: Vec<u32> = Vec::new();
    assert_eq!(round_trip(empty.clone()), empty);
}

#[test]
fn option_round_trip() {
    assert_eq!(round_trip(Some(5u32)), Some(5u32));
    assert_eq!(round_trip(None::<u32>), None::<u32>);
}

#[test]
fn option_none_collapses_to_nothing() {
    let erased = None::<u32>.into_input();
    assert!(erased.is_nothing());
    assert_eq!(erased, ConcreteTaskInput::Nothing);
}

#[test]
fn option_of_absent_option_is_rejected() {
    let attempt = <Option<Option<u32>> as FromTaskInput>::try_into_input(Some(None::<u32>));
    assert!(attempt.is_none());
    // A present inner value stays encodable.
    let fine = <Option<Option<u32>> as FromTaskInput>::try_into_input(Some(Some(4u32)));
    assert_eq!(fine, Some(ConcreteTaskInput::U32(4)));
}

#[test]
fn tuple_round_trips_every_arity() {
    assert_eq!(round_trip((1u8,)), (1u8,));
    assert_eq!(round_trip((1u8, 2u16)), (1u8, 2u16));
    assert_eq!(
        round_trip((1u8, 2u16, "a".to_string())),
        (1u8, 2u16, "a".to_string())
    );
    assert_eq!(round_trip((1u8, 2u16, 3u32, 4u64)), (1u8, 2u16, 3u32, 4u64));
    assert_eq!(
        round_trip((1u8, 2u16, 3u32, 4u64, true)),
        (1u8, 2u16, 3u32, 4u64, true)
    );
    assert_eq!(
        round_trip((1u8, 2u16, 3u32, 4u64, true, 6usize)),
        (1u8, 2u16, 3u32, 4u64, true, 6usize)
    );
    assert_eq!(
        round_trip((1u8, 2u16, 3u32, 4u64, true, 6usize, -7i8)),
        (1u8, 2u16, 3u32, 4u64, true, 6usize, -7i8)
    );
    assert_eq!(
        round_trip((1u8, 2u16, 3u32, 4u64, true, 6usize, -7i8, -8i16)),
        (1u8, 2u16, 3u32, 4u64, true, 6usize, -7i8, -8i16)
    );
    assert_eq!(
        round_trip((1u8, 2u16, 3u32, 4u64, true, 6usize, -7i8, -8i16, -9i32)),
        (1u8, 2u16, 3u32, 4u64, true, 6usize, -7i8, -8i16, -9i32)
    );
    assert_eq!(
        round_trip((1u8, 2u16, 3u32, 4u64, true, 6usize, -7i8, -8i16, -9i32, 10u32)),
        (1u8, 2u16, 3u32, 4u64, true, 6usize, -7i8, -8i16, -9i32, 10u32)
    );
    assert_eq!(
        round_trip((1u8, 2u16, 3u32, 4u64, true, 6usize, -7i8, -8i16, -9i32, 10u32, 11u8)),
        (1u8, 2u16, 3u32, 4u64, true, 6usize, -7i8, -8i16, -9i32, 10u32, 11u8)
    );
    let twelve = (
        1u8,
        2u16,
        3u32,
        4u64,
        true,
        6usize,
        -7i8,
        -8i16,
        -9i32,
        10u32,
        11u8,
        "end".to_string(),
    );
    assert_eq!(round_trip(twelve.clone()), twelve);
}

#[test]
fn tuple_encodes_positionally() {
    let erased = (1u8, "x".to_string()).into_input();
    assert_eq!(
        erased,
        ConcreteTaskInput::List(vec![
            ConcreteTaskInput::U8(1),
            ConcreteTaskInput::String("x".to_string()),
        ])
    );
}

#[test]
fn nested_values_round_trip() {
    let value = vec![(Some(1u32), "a".to_string()), (None, "b".to_string())];
    assert_eq!(round_trip(value.clone()), value);
}

#[test]
fn wrong_variant_is_rejected_with_expected_type() {
    let not_a_u32 = ConcreteTaskInput::Bool(true);
    let err = <u32 as FromTaskInput>::try_from(&not_a_u32).unwrap_err();
    assert_eq!(err.expected, "u32");
    let err = <String as FromTaskInput>::try_from(&ConcreteTaskInput::U32(1)).unwrap_err();
    assert_eq!(err.expected, "string");
    let err = <Vec<u32> as FromTaskInput>::try_from(&ConcreteTaskInput::U32(1)).unwrap_err();
    assert_eq!(err.expected, "list");
    let err = <RawVc as FromTaskInput>::try_from(&ConcreteTaskInput::Nothing).unwrap_err();
    assert_eq!(err.expected, "task reference");
    // An element-level failure propagates out of a list conversion.
    let mixed = ConcreteTaskInput::List(vec![
        ConcreteTaskInput::U32(1),
        ConcreteTaskInput::Bool(true),
    ]);
    let err = <Vec<u32> as FromTaskInput>::try_from(&mixed).unwrap_err();
    assert_eq!(err.expected, "u32");
    // A tuple of the wrong length is rejected.
    let err = <(u32, u32) as FromTaskInput>::try_from(&ConcreteTaskInput::List(vec![
        ConcreteTaskInput::U32(1),
    ]))
    .unwrap_err();
    assert_eq!(err.expected, "list");
}

#[test]
fn container_wrappers_round_trip() {
    let mut alloc = SharedAllocator::new();

    let payload = alloc.allocate(11, vec![1, 2, 3]);
    let erased = Value::new(7, payload).into_input();
    let back = <Value as FromTaskInput>::try_from(&erased).unwrap();
    assert_eq!(back.type_id, 7);
    assert_eq!(back.payload.type_tag, 11);
    assert_eq!(back.payload.content, vec![1, 2, 3]);

    let payload = alloc.allocate(12, vec![4]);
    let erased = TransientValue::new(payload).into_input();
    let back = <TransientValue as FromTaskInput>::try_from(&erased).unwrap();
    assert_eq!(back.payload.type_tag, 12);
    assert_eq!(back.payload.content, vec![4]);

    let payload = alloc.allocate(13, vec![]);
    let erased = TransientInstance::new(payload).into_input();
    let back = <TransientInstance as FromTaskInput>::try_from(&erased).unwrap();
    assert_eq!(back.payload.type_tag, 13);
    assert_eq!(back.payload.content, Vec::<u8>::new());
}
