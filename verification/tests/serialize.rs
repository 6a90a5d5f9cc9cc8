use somebotty::error::RuntimeError;
use somebotty::serialize::{finish_get, finish_set, get, StoreRead, StoreWrite};
use somebotty::value::{ScriptValue, SerializedValue};

fn number(x: f64) -> ScriptValue {
    ScriptValue::Number(x.to_bits())
}

fn string(s: &str) -> ScriptValue {
    ScriptValue::String(s.to_string())
}

fn nested() -> ScriptValue {
    ScriptValue::Record(vec![
        ("name".to_string(), string("boba")),
        ("sizes".to_string(), ScriptValue::Tuple(vec![number(1.0), number(2.5), number(-0.0)])),
        (
            "inner".to_string(),
            ScriptValue::Record(vec![
                ("ok".to_string(), ScriptValue::Boolean(true)),
                ("none".to_string(), ScriptValue::Tuple(vec![])),
                ("deep".to_string(), ScriptValue::Tuple(vec![ScriptValue::Tuple(vec![string("")])])),
            ]),
        ),
    ])
}

fn round_trip(value: &ScriptValue) -> ScriptValue {
    let stored = SerializedValue::try_from(value).unwrap();
    SerializedValue::try_into(&stored).unwrap()
}

#[test]
fn unit_is_the_empty_tuple() {
    assert_eq!(ScriptValue::get_unit(), ScriptValue::Tuple(vec![]));
}

#[test]
fn plain_values_are_stored_kind_by_kind() {
    assert_eq!(
        SerializedValue::try_from(&number(1.5)),
        Ok(SerializedValue::Number(1.5f64.to_bits()))
    );
    assert_eq!(
        SerializedValue::try_from(&ScriptValue::Boolean(true)),
        Ok(SerializedValue::Boolean(true))
    );
    assert_eq!(
        SerializedValue::try_from(&string("hi")),
        Ok(SerializedValue::String("hi".to_string()))
    );
    assert_eq!(
        SerializedValue::try_from(&ScriptValue::Tuple(vec![])),
        Ok(SerializedValue::Tuple(vec![]))
    );
    assert_eq!(
        SerializedValue::try_from(&ScriptValue::Record(vec![])),
        Ok(SerializedValue::Record(vec![]))
    );
}

#[test]
fn tuple_keeps_the_order_of_its_items() {
    let value = ScriptValue::Tuple(vec![number(3.0), string("b"), ScriptValue::Boolean(false)]);
    assert_eq!(
        SerializedValue::try_from(&value),
        Ok(SerializedValue::Tuple(vec![
            SerializedValue::Number(3.0f64.to_bits()),
            SerializedValue::String("b".to_string()),
            SerializedValue::Boolean(false),
        ]))
    );
}

#[test]
fn record_keeps_its_names() {
    let value = ScriptValue::Record(vec![
        ("b".to_string(), number(2.0)),
        ("a".to_string(), number(1.0)),
    ]);
    assert_eq!(
        SerializedValue::try_from(&value),
        Ok(SerializedValue::Record(vec![
            ("b".to_string(), SerializedValue::Number(2.0f64.to_bits())),
            ("a".to_string(), SerializedValue::Number(1.0f64.to_bits())),
        ]))
    );
}

#[test]
fn stored_value_comes_back_as_script_value() {
    let stored = SerializedValue::Tuple(vec![
        SerializedValue::Record(vec![("k".to_string(), SerializedValue::Boolean(true))]),
        SerializedValue::String("s".to_string()),
    ]);
    assert_eq!(
        SerializedValue::try_into(&stored),
        Ok(ScriptValue::Tuple(vec![
            ScriptValue::Record(vec![("k".to_string(), ScriptValue::Boolean(true))]),
            string("s"),
        ]))
    );
}

#[test]
fn round_trip_keeps_nested_values() {
    let value = nested();
    assert_eq!(round_trip(&value), value);
}

#[test]
fn round_trip_keeps_every_bit_of_a_number() {
    for x in [
        0.0,
        -0.0,
        1.0,
        0.1,
        1e300,
        -1e-300,
        f64::MAX,
        f64::MIN_POSITIVE,
        f64::INFINITY,
        f64::NEG_INFINITY,
        f64::NAN,
    ] {
        let value = number(x);
        assert_eq!(round_trip(&value), value);
    }
    let odd_nan = ScriptValue::Number(0x7ff8_0000_dead_beef);
    assert_eq!(round_trip(&odd_nan), odd_nan);
}

#[test]
fn stored_round_trip_keeps_the_stored_value() {
    let stored = SerializedValue::try_from(&nested()).unwrap();
    let value = SerializedValue::try_into(&stored).unwrap();
    assert_eq!(SerializedValue::try_from(&value), Ok(stored));
}

#[test]
fn functions_cannot_be_stored() {
    for value in [ScriptValue::Function, ScriptValue::NativeFunction, ScriptValue::Closure] {
        assert_eq!(SerializedValue::try_from(&value), Err(RuntimeError::OperationNotSupported));
    }
}

#[test]
fn a_function_deep_inside_stops_the_conversion() {
    let in_tuple = ScriptValue::Tuple(vec![number(1.0), ScriptValue::Closure, number(2.0)]);
    assert_eq!(SerializedValue::try_from(&in_tuple), Err(RuntimeError::OperationNotSupported));
    let in_record = ScriptValue::Record(vec![
        ("a".to_string(), number(1.0)),
        ("f".to_string(), ScriptValue::Tuple(vec![ScriptValue::Function])),
    ]);
    assert_eq!(SerializedValue::try_from(&in_record), Err(RuntimeError::OperationNotSupported));
    let last = ScriptValue::Tuple(vec![number(1.0), ScriptValue::NativeFunction]);
    assert_eq!(SerializedValue::try_from(&last), Err(RuntimeError::OperationNotSupported));
}

#[test]
fn clone_copies_the_whole_value() {
    let value = nested();
    assert_eq!(value.clone(), value);
    assert_eq!(ScriptValue::Closure.clone(), ScriptValue::Closure);
    let stored = SerializedValue::try_from(&value).unwrap();
    assert_eq!(stored.clone(), stored);
}

#[test]
fn get_wants_one_string() {
    assert_eq!(get(&[string("counter")]), Ok("counter".to_string()));
    assert_eq!(get(&[string("")]), Ok("".to_string()));
}

#[test]
fn get_counts_its_arguments() {
    assert_eq!(get(&[]), Err(RuntimeError::IncorrectParameterCount(1, 0)));
    assert_eq!(
        get(&[string("a"), string("b")]),
        Err(RuntimeError::IncorrectParameterCount(1, 2))
    );
    assert_eq!(
        get(&[number(1.0), number(2.0), number(3.0)]),
        Err(RuntimeError::IncorrectParameterCount(1, 3))
    );
}

#[test]
fn get_refuses_a_key_that_is_no_string() {
    assert_eq!(get(&[number(1.0)]), Err(RuntimeError::OperationNotSupported));
    assert_eq!(get(&[ScriptValue::Tuple(vec![])]), Err(RuntimeError::OperationNotSupported));
    assert_eq!(get(&[ScriptValue::Function]), Err(RuntimeError::OperationNotSupported));
}

#[test]
fn get_of_missing_key_is_unit() {
    assert_eq!(finish_get(&StoreRead::Absent), Ok(ScriptValue::Tuple(vec![])));
}

#[test]
fn get_of_present_key_is_the_stored_value() {
    let stored = SerializedValue::try_from(&nested()).unwrap();
    assert_eq!(finish_get(&StoreRead::Present(stored)), Ok(nested()));
}

#[test]
fn get_from_a_failed_store_is_unknown_error() {
    assert_eq!(finish_get(&StoreRead::Failed), Err(RuntimeError::Unknown));
}

#[test]
fn set_gives_key_and_stored_value() {
    let write = somebotty::serialize::set(&[string("counter"), number(1.0)]);
    assert_eq!(
        write,
        Ok(StoreWrite {
            key: "counter".to_string(),
            value: SerializedValue::Number(1.0f64.to_bits()),
        })
    );
}

#[test]
fn set_counts_its_arguments() {
    assert_eq!(
        somebotty::serialize::set(&[]),
        Err(RuntimeError::IncorrectParameterCount(2, 0))
    );
    assert_eq!(
        somebotty::serialize::set(&[string("k")]),
        Err(RuntimeError::IncorrectParameterCount(2, 1))
    );
    assert_eq!(
        somebotty::serialize::set(&[string("k"), number(1.0), number(2.0)]),
        Err(RuntimeError::IncorrectParameterCount(2, 3))
    );
}

#[test]
fn set_refuses_a_key_that_is_no_string() {
    assert_eq!(
        somebotty::serialize::set(&[number(1.0), number(2.0)]),
        Err(RuntimeError::OperationNotSupported)
    );
    assert_eq!(
        somebotty::serialize::set(&[ScriptValue::Boolean(true), string("v")]),
        Err(RuntimeError::OperationNotSupported)
    );
}

#[test]
fn set_refuses_a_value_that_cannot_be_stored() {
    assert_eq!(
        somebotty::serialize::set(&[string("k"), ScriptValue::Closure]),
        Err(RuntimeError::OperationNotSupported)
    );
    assert_eq!(
        somebotty::serialize::set(&[
            string("k"),
            ScriptValue::Tuple(vec![number(1.0), ScriptValue::Function]),
        ]),
        Err(RuntimeError::OperationNotSupported)
    );
}

#[test]
fn set_answers_unit_once_written() {
    assert_eq!(finish_set(true), Ok(ScriptValue::Tuple(vec![])));
    assert_eq!(finish_set(false), Err(RuntimeError::Unknown));
}

#[test]
fn set_then_get_gives_the_number_back() {
    let write = somebotty::serialize::set(&[string("counter"), number(1.0)]).unwrap();
    assert_eq!(finish_set(true), Ok(ScriptValue::get_unit()));
    let key = get(&[string("counter")]).unwrap();
    assert_eq!(key, write.key);
    assert_eq!(finish_get(&StoreRead::Present(write.value)), Ok(number(1.0)));
}

#[test]
fn set_then_get_gives_a_nested_value_back() {
    let write = somebotty::serialize::set(&[string("k"), nested()]).unwrap();
    assert_eq!(finish_get(&StoreRead::Present(write.value)), Ok(nested()));
}
