use columnar::builder::VectorBuilder;
use columnar::data_type::ConcreteDataType;
use columnar::value::{Value, ValueRef};

#[test]
fn test_integer_vector_builder() {
    let data_type = ConcreteDataType::uint8_datatype();
    let mut builder = VectorBuilder::with_capacity(ConcreteDataType::uint8_datatype(), 10);
    assert_eq!(data_type, builder.data_type());
    for i in 0..10 {
        builder.push(&Value::UInt8(i));
    }
    for i in 10..20 {
        builder.try_push_ref(ValueRef::UInt8(i)).unwrap();
    }
    let vector = builder.finish();
    for i in 0..20 {
        assert_eq!(Value::UInt8(i), vector.get(i as usize));
    }

    let mut builder = VectorBuilder::new(ConcreteDataType::uint8_datatype());
    builder.push(&Value::Null);
    builder.push(&Value::UInt8(100));
    builder.try_push_ref(ValueRef::Null).unwrap();
    builder.try_push_ref(ValueRef::UInt8(101)).unwrap();

    let result = builder.try_push_ref(ValueRef::Boolean(true));
    assert!(result.is_err());
    assert_eq!(
        result.unwrap_err().message(),
        "Failed to cast value Boolean(true) to primitive type UInt8"
    );

    let vector = builder.finish();
    assert!(vector.is_null(0));
    assert_eq!(Value::UInt8(100), vector.get(1));
    assert!(vector.is_null(2));
    assert_eq!(Value::UInt8(101), vector.get(3));

    let data_type = ConcreteDataType::uint16_datatype();
    let mut builder = VectorBuilder::with_capacity(ConcreteDataType::uint16_datatype(), 10);
    assert_eq!(data_type, builder.data_type());
    for i in 0..10 {
        builder.push(&Value::UInt16(i));
    }
    for i in 10..20 {
        builder.try_push_ref(ValueRef::UInt16(i)).unwrap();
    }
    let vector = builder.finish();
    for i in 0..20 {
        assert_eq!(Value::UInt16(i), vector.get(i as usize));
    }

    let mut builder = VectorBuilder::new(ConcreteDataType::uint16_datatype());
    builder.push(&Value::Null);
    builder.push(&Value::UInt16(100));
    builder.try_push_ref(ValueRef::Null).unwrap();
    builder.try_push_ref(ValueRef::UInt16(101)).unwrap();

    let result = builder.try_push_ref(ValueRef::Boolean(true));
    assert!(result.is_err());
    assert_eq!(
        result.unwrap_err().message(),
        "Failed to cast value Boolean(true) to primitive type UInt16"
    );

    let vector = builder.finish();
    assert!(vector.is_null(0));
    assert_eq!(Value::UInt16(100), vector.get(1));
    assert!(vector.is_null(2));
    assert_eq!(Value::UInt16(101), vector.get(3));

    let data_type = ConcreteDataType::uint32_datatype();
    let mut builder = VectorBuilder::with_capacity(ConcreteDataType::uint32_datatype(), 10);
    assert_eq!(data_type, builder.data_type());
    for i in 0..10 {
        builder.push(&Value::UInt32(i));
    }
    for i in 10..20 {
        builder.try_push_ref(ValueRef::UInt32(i)).unwrap();
    }
    let vector = builder.finish();
    for i in 0..20 {
        assert_eq!(Value::UInt32(i), vector.get(i as usize));
    }

    let mut builder = VectorBuilder::new(ConcreteDataType::uint32_datatype());
    builder.push(&Value::Null);
    builder.push(&Value::UInt32(100));
    builder.try_push_ref(ValueRef::Null).unwrap();
    builder.try_push_ref(ValueRef::UInt32(101)).unwrap();

    let result = builder.try_push_ref(ValueRef::Boolean(true));
    assert!(result.is_err());
    assert_eq!(
        result.unwrap_err().message(),
        "Failed to cast value Boolean(true) to primitive type UInt32"
    );

    let vector = builder.finish();
    assert!(vector.is_null(0));
    assert_eq!(Value::UInt32(100), vector.get(1));
    assert!(vector.is_null(2));
    assert_eq!(Value::UInt32(101), vector.get(3));

    let data_type = ConcreteDataType::uint64_datatype();
    let mut builder = VectorBuilder::with_capacity(ConcreteDataType::uint64_datatype(), 10);
    assert_eq!(data_type, builder.data_type());
    for i in 0..10 {
        builder.push(&Value::UInt64(i));
    }
    for i in 10..20 {
        builder.try_push_ref(ValueRef::UInt64(i)).unwrap();
    }
    let vector = builder.finish();
    for i in 0..20 {
        assert_eq!(Value::UInt64(i), vector.get(i as usize));
    }

    let mut builder = VectorBuilder::new(ConcreteDataType::uint64_datatype());
    builder.push(&Value::Null);
    builder.push(&Value::UInt64(100));
    builder.try_push_ref(ValueRef::Null).unwrap();
    builder.try_push_ref(ValueRef::UInt64(101)).unwrap();

    let result = builder.try_push_ref(ValueRef::Boolean(true));
    assert!(result.is_err());
    assert_eq!(
        result.unwrap_err().message(),
        "Failed to cast value Boolean(true) to primitive type UInt64"
    );

    let vector = builder.finish();
    assert!(vector.is_null(0));
    assert_eq!(Value::UInt64(100), vector.get(1));
    assert!(vector.is_null(2));
    assert_eq!(Value::UInt64(101), vector.get(3));

    let data_type = ConcreteDataType::int8_datatype();
    let mut builder = VectorBuilder::with_capacity(ConcreteDataType::int8_datatype(), 10);
    assert_eq!(data_type, builder.data_type());
    for i in 0..10 {
        builder.push(&Value::Int8(i));
    }
    for i in 10..20 {
        builder.try_push_ref(ValueRef::Int8(i)).unwrap();
    }
    let vector = builder.finish();
    for i in 0..20 {
        assert_eq!(Value::Int8(i), vector.get(i as usize));
    }

    let mut builder = VectorBuilder::new(ConcreteDataType::int8_datatype());
    builder.push(&Value::Null);
    builder.push(&Value::Int8(100));
    builder.try_push_ref(ValueRef::Null).unwrap();
    builder.try_push_ref(ValueRef::Int8(101)).unwrap();

    let result = builder.try_push_ref(ValueRef::Boolean(true));
    assert!(result.is_err());
    assert_eq!(
        result.unwrap_err().message(),
        "Failed to cast value Boolean(true) to primitive type Int8"
    );

    let vector = builder.finish();
    assert!(vector.is_null(0));
    assert_eq!(Value::Int8(100), vector.get(1));
    assert!(vector.is_null(2));
    assert_eq!(Value::Int8(101), vector.get(3));

    let data_type = ConcreteDataType::int16_datatype();
    let mut builder = VectorBuilder::with_capacity(ConcreteDataType::int16_datatype(), 10);
    assert_eq!(data_type, builder.data_type());
    for i in 0..10 {
        builder.push(&Value::Int16(i));
    }
    for i in 10..20 {
        builder.try_push_ref(ValueRef::Int16(i)).unwrap();
    }
    let vector = builder.finish();
    for i in 0..20 {
        assert_eq!(Value::Int16(i), vector.get(i as usize));
    }

    let mut builder = VectorBuilder::new(ConcreteDataType::int16_datatype());
    builder.push(&Value::Null);
    builder.push(&Value::Int16(100));
    builder.try_push_ref(ValueRef::Null).unwrap();
    builder.try_push_ref(ValueRef::Int16(101)).unwrap();

    let result = builder.try_push_ref(ValueRef::Boolean(true));
    assert!(result.is_err());
    assert_eq!(
        result.unwrap_err().message(),
        "Failed to cast value Boolean(true) to primitive type Int16"
    );

    let vector = builder.finish();
    assert!(vector.is_null(0));
    assert_eq!(Value::Int16(100), vector.get(1));
    assert!(vector.is_null(2));
    assert_eq!(Value::Int16(101), vector.get(3));

    let data_type = ConcreteDataType::int32_datatype();
    let mut builder = VectorBuilder::with_capacity(ConcreteDataType::int32_datatype(), 10);
    assert_eq!(data_type, builder.data_type());
    for i in 0..10 {
        builder.push(&Value::Int32(i));
    }
    for i in 10..20 {
        builder.try_push_ref(ValueRef::Int32(i)).unwrap();
    }
    let vector = builder.finish();
    for i in 0..20 {
        assert_eq!(Value::Int32(i), vector.get(i as usize));
    }

    let mut builder = VectorBuilder::new(ConcreteDataType::int32_datatype());
    builder.push(&Value::Null);
    builder.push(&Value::Int32(100));
    builder.try_push_ref(ValueRef::Null).unwrap();
    builder.try_push_ref(ValueRef::Int32(101)).unwrap();

    let result = builder.try_push_ref(ValueRef::Boolean(true));
    assert!(result.is_err());
    assert_eq!(
        result.unwrap_err().message(),
        "Failed to cast value Boolean(true) to primitive type Int32"
    );

    let vector = builder.finish();
    assert!(vector.is_null(0));
    assert_eq!(Value::Int32(100), vector.get(1));
    assert!(vector.is_null(2));
    assert_eq!(Value::Int32(101), vector.get(3));

    let data_type = ConcreteDataType::int64_datatype();
    let mut builder = VectorBuilder::with_capacity(ConcreteDataType::int64_datatype(), 10);
    assert_eq!(data_type, builder.data_type());
    for i in 0..10 {
        builder.push(&Value::Int64(i));
    }
    for i in 10..20 {
        builder.try_push_ref(ValueRef::Int64(i)).unwrap();
    }
    let vector = builder.finish();
    for i in 0..20 {
        assert_eq!(Value::Int64(i), vector.get(i as usize));
    }

    let mut builder = VectorBuilder::new(ConcreteDataType::int64_datatype());
    builder.push(&Value::Null);
    builder.push(&Value::Int64(100));
    builder.try_push_ref(ValueRef::Null).unwrap();
    builder.try_push_ref(ValueRef::Int64(101)).unwrap();

    let result = builder.try_push_ref(ValueRef::Boolean(true));
    assert!(result.is_err());
    assert_eq!(
        result.unwrap_err().message(),
        "Failed to cast value Boolean(true) to primitive type Int64"
    );

    let vector = builder.finish();
    assert!(vector.is_null(0));
    assert_eq!(Value::Int64(100), vector.get(1));
    assert!(vector.is_null(2));
    assert_eq!(Value::Int64(101), vector.get(3));
}
