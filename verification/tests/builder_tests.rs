use columnar::builder::VectorBuilder;
use columnar::data_type::{ConcreteDataType, InteropArrayType};
use columnar::value::{Date, DateTime, Timestamp, Value, ValueRef};

#[test]
fn test_null_vector_builder() {
    let mut builder = VectorBuilder::new(ConcreteDataType::null_datatype());
    assert_eq!(ConcreteDataType::null_datatype(), builder.data_type());
    builder.push(&Value::Null);

    let result = builder.try_push_ref(ValueRef::Boolean(true));
    assert!(result.is_err());
    assert_eq!(
        result.unwrap_err().message(),
        "unable to accept non-null value in NullVectorBuilder"
    );

    builder.try_push_ref(ValueRef::Null).unwrap();

    let vector = builder.finish();
    assert!(vector.is_null(0));
    assert!(vector.is_null(1));
}

#[test]
fn test_float_vector_builder() {
    let data_type = ConcreteDataType::float32_datatype();
    let mut builder = VectorBuilder::new(ConcreteDataType::float32_datatype());
    assert_eq!(data_type, builder.data_type());

    builder.push(&Value::Float32(1.0f32.to_bits()));

    let result = builder.try_push_ref(ValueRef::Boolean(true));
    assert!(result.is_err());
    assert_eq!(
        result.unwrap_err().message(),
        "Failed to cast value Boolean(true) to primitive type Float32"
    );

    builder.try_push_ref(ValueRef::Float32(2.0f32.to_bits())).unwrap();
    builder.try_push_ref(ValueRef::Null).unwrap();

    let vector = builder.finish();
    assert_eq!(Value::Float32(1.0f32.to_bits()), vector.get(0));
    assert_eq!(Value::Float32(2.0f32.to_bits()), vector.get(1));
    assert_eq!(Value::Null, vector.get(2));

    let mut builder = VectorBuilder::new(ConcreteDataType::float64_datatype());
    builder.push(&Value::Float64(2.0f64.to_bits()));

    let result = builder.try_push_ref(ValueRef::Boolean(true));
    assert!(result.is_err());
    assert_eq!(
        result.unwrap_err().message(),
        "Failed to cast value Boolean(true) to primitive type Float64"
    );

    builder.try_push_ref(ValueRef::Float64(3.0f64.to_bits())).unwrap();
    builder.try_push_ref(ValueRef::Null).unwrap();

    let vector = builder.finish();
    assert_eq!(Value::Float64(2.0f64.to_bits()), vector.get(0));
    assert_eq!(Value::Float64(3.0f64.to_bits()), vector.get(1));
    assert_eq!(Value::Null, vector.get(2));
}

#[test]
fn test_binary_vector_builder() {
    let data_type = ConcreteDataType::binary_datatype();
    let hello: &[u8] = b"hello";
    let mut builder = VectorBuilder::new(ConcreteDataType::binary_datatype());
    assert_eq!(data_type, builder.data_type());
    builder.push(&Value::Binary(hello.to_vec()));

    let result = builder.try_push_ref(ValueRef::Boolean(true));
    assert!(result.is_err());
    assert_eq!(
        result.unwrap_err().message(),
        "Failed to cast value ref Boolean(true) to Binary"
    );

    builder.try_push_ref(ValueRef::Binary(b"world")).unwrap();
    builder.try_push_ref(ValueRef::Null).unwrap();

    let vector = builder.finish();
    assert_eq!(Value::Binary(hello.to_vec()), vector.get(0));
    assert_eq!(ValueRef::Binary(b"world"), vector.get_ref(1));
    assert_eq!(Value::Null, vector.get(2));
}

#[test]
fn test_string_vector_builder() {
    let data_type = ConcreteDataType::string_datatype();
    let hello = "hello";
    let mut builder = VectorBuilder::new(ConcreteDataType::string_datatype());
    assert_eq!(data_type, builder.data_type());
    builder.push(&Value::String(hello.to_string()));

    let result = builder.try_push_ref(ValueRef::Boolean(true));
    assert!(result.is_err());
    assert_eq!(
        result.unwrap_err().message(),
        "Failed to cast value ref Boolean(true) to String"
    );

    builder.try_push_ref(ValueRef::String("world")).unwrap();
    builder.try_push_ref(ValueRef::Null).unwrap();

    let vector = builder.finish();
    assert_eq!(Value::String(hello.to_string()), vector.get(0));
    assert_eq!(ValueRef::String("world"), vector.get_ref(1));
    assert_eq!(Value::Null, vector.get(2));
}

#[test]
fn test_date_vector_builder() {
    let mut builder = VectorBuilder::with_capacity(ConcreteDataType::date_datatype(), 3);
    assert_eq!(ConcreteDataType::date_datatype(), builder.data_type());
    builder.push_null();
    builder.push(&Value::Date(Date::new(123)));

    let result = builder.try_push_ref(ValueRef::Boolean(true));
    assert!(result.is_err());
    assert_eq!(
        result.unwrap_err().message(),
        "Failed to cast value ref Boolean(true) to Date"
    );

    builder.try_push_ref(ValueRef::Date(Date::new(456))).unwrap();
    builder.try_push_ref(ValueRef::Null).unwrap();

    let v = builder.finish();
    assert_eq!(Value::Null, v.get(0));
    assert_eq!(Value::Date(Date::new(123)), v.get(1));
    assert_eq!(ValueRef::Date(Date::new(456)), v.get_ref(2));
    assert_eq!(ValueRef::Null, v.get_ref(3));
    assert_eq!(InteropArrayType::Date32, v.data_type().as_arrow_type());
}

#[test]
fn test_datetime_vector_builder() {
    let mut builder = VectorBuilder::with_capacity(ConcreteDataType::datetime_datatype(), 3);
    assert_eq!(ConcreteDataType::datetime_datatype(), builder.data_type());
    builder.push_null();
    builder.push(&Value::DateTime(DateTime::new(123)));

    let result = builder.try_push_ref(ValueRef::Boolean(true));
    assert!(result.is_err());
    assert_eq!(
        result.unwrap_err().message(),
        "Failed to cast value ref Boolean(true) to DateTime"
    );

    builder.try_push_ref(ValueRef::DateTime(DateTime::new(456))).unwrap();
    builder.try_push_ref(ValueRef::Null).unwrap();

    let v = builder.finish();
    assert_eq!(Value::Null, v.get(0));
    assert_eq!(Value::DateTime(DateTime::new(123)), v.get(1));
    assert_eq!(ValueRef::DateTime(DateTime::new(456)), v.get_ref(2));
    assert_eq!(ValueRef::Null, v.get_ref(3));
    assert_eq!(InteropArrayType::Date64, v.data_type().as_arrow_type());
}

#[test]
fn test_boolean_builder_scenario() {
    let mut builder = VectorBuilder::with_capacity(ConcreteDataType::boolean_datatype(), 10);
    builder.push(&Value::Boolean(true));
    builder.try_push_ref(ValueRef::Boolean(false)).unwrap();
    builder.push_null();
    let v = builder.finish();
    assert_eq!(3, v.len());
    assert!(!v.is_empty());
    assert_eq!(Value::Boolean(true), v.get(0));
    assert_eq!(Value::Boolean(false), v.get(1));
    assert!(v.is_null(2));
    assert_eq!(Value::Null, v.get(2));
}

#[test]
fn test_timestamp_builder_accepts_millis() {
    let mut builder = VectorBuilder::new(ConcreteDataType::timestamp_datatype());
    builder.push(&Value::Timestamp(Timestamp::from_millis(7)));
    builder.push(&Value::Int64(8));
    builder.try_push_ref(ValueRef::Int64(9)).unwrap();
    let v = builder.finish();
    assert_eq!(Value::Timestamp(Timestamp::from_millis(7)), v.get(0));
    assert_eq!(Value::Timestamp(Timestamp::from_millis(8)), v.get(1));
    assert_eq!(Value::Timestamp(Timestamp::from_millis(9)), v.get(2));
}

#[test]
fn test_date_builder_accepts_raw_int32() {
    let mut builder = VectorBuilder::new(ConcreteDataType::date_datatype());
    builder.push(&Value::Int32(11));
    builder.try_push_ref(ValueRef::Int32(12)).unwrap();
    let v = builder.finish();
    assert_eq!(Value::Date(Date::new(11)), v.get(0));
    assert_eq!(Value::Date(Date::new(12)), v.get(1));
}

#[test]
fn test_datetime_builder_accepts_raw_int64() {
    let mut builder = VectorBuilder::new(ConcreteDataType::datetime_datatype());
    builder.push(&Value::Int64(21));
    builder.try_push_ref(ValueRef::Int64(22)).unwrap();
    let v = builder.finish();
    assert_eq!(Value::DateTime(DateTime::new(21)), v.get(0));
    assert_eq!(Value::DateTime(DateTime::new(22)), v.get(1));
}

#[test]
fn test_push_null_reports_null_on_both_accesses() {
    let mut builder = VectorBuilder::new(ConcreteDataType::int32_datatype());
    builder.push_null();
    let v = builder.finish();
    assert!(v.is_null(0));
    assert_eq!(Value::Null, v.get(0));
    assert_eq!(ValueRef::Null, v.get_ref(0));
}

#[test]
fn test_mismatch_leaves_builder_unchanged() {
    let mut builder = VectorBuilder::new(ConcreteDataType::int32_datatype());
    builder.push(&Value::Int32(5));
    let result = builder.try_push_ref(ValueRef::String("nope"));
    assert!(result.is_err());
    assert_eq!(
        result.unwrap_err().message(),
        "Failed to cast value String(\"nope\") to primitive type Int32"
    );
    let v = builder.finish();
    assert_eq!(1, v.len());
    assert_eq!(Value::Int32(5), v.get(0));
}

#[test]
fn test_rebuild_roundtrip() {
    let mut builder = VectorBuilder::new(ConcreteDataType::string_datatype());
    builder.push(&Value::String("a".to_string()));
    builder.push_null();
    builder.try_push_ref(ValueRef::String("b")).unwrap();
    let v = builder.finish();

    let mut rebuilt = VectorBuilder::with_capacity(v.data_type(), v.len());
    let mut i = 0;
    while i < v.len() {
        rebuilt.try_push_ref(v.get_ref(i)).unwrap();
        i += 1;
    }
    let w = rebuilt.finish();
    assert_eq!(v.data_type(), w.data_type());
    assert_eq!(v.len(), w.len());
    let mut i = 0;
    while i < v.len() {
        assert_eq!(v.get(i), w.get(i));
        i += 1;
    }
}

#[test]
fn test_data_type_stable_across_pushes() {
    let mut builder = VectorBuilder::new(ConcreteDataType::date_datatype());
    let before = builder.data_type();
    builder.push_null();
    builder.push(&Value::Date(Date::new(1)));
    builder.try_push_ref(ValueRef::Int32(2)).unwrap();
    let result = builder.try_push_ref(ValueRef::Boolean(true));
    assert!(result.is_err());
    assert_eq!(before, builder.data_type());
}

#[test]
fn test_push_then_get_returns_value() {
    let mut builder = VectorBuilder::new(ConcreteDataType::uint64_datatype());
    builder.push(&Value::UInt64(u64::MAX));
    let v = builder.finish();
    assert_eq!(Value::UInt64(u64::MAX), v.get(0));

    let mut builder = VectorBuilder::new(ConcreteDataType::boolean_datatype());
    builder.push(&Value::Boolean(false));
    let v = builder.finish();
    assert_eq!(Value::Boolean(false), v.get(0));

    let mut builder = VectorBuilder::new(ConcreteDataType::binary_datatype());
    builder.push(&Value::Binary(vec![1, 2, 3]));
    let v = builder.finish();
    assert_eq!(Value::Binary(vec![1, 2, 3]), v.get(0));
}

#[test]
fn test_cast_error_renders_negative_values() {
    let mut builder = VectorBuilder::new(ConcreteDataType::boolean_datatype());
    let result = builder.try_push_ref(ValueRef::Int64(-5));
    assert!(result.is_err());
    assert_eq!(
        result.unwrap_err().message(),
        "Failed to cast value ref Int64(-5) to Boolean"
    );
}
