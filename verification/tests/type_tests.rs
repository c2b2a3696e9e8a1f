use columnar::data_type::{ConcreteDataType, InteropArrayType, ListType, LogicalTypeId};
use columnar::list::ListVectorBuilder;
use columnar::namespace::LocalNamespace;
use columnar::udf::{ScalarUdf, Signature, Volatility};
use columnar::value::{ListValue, Value, ValueRef};

#[test]
fn test_list_type() {
    let t = ListType::new(ConcreteDataType::boolean_datatype());
    assert_eq!("List", t.name());
    assert_eq!(LogicalTypeId::List, t.logical_type_id());
    assert_eq!(
        Value::List(ListValue::new(None, ConcreteDataType::boolean_datatype())),
        t.default_value()
    );
    assert_eq!(
        InteropArrayType::List(Box::new(InteropArrayType::Boolean)),
        t.as_arrow_type()
    );
}

#[test]
fn test_nested_list_interop_type() {
    let inner = ConcreteDataType::list_datatype(ConcreteDataType::int32_datatype());
    let t = ListType::new(inner);
    assert_eq!(
        InteropArrayType::List(Box::new(InteropArrayType::List(Box::new(
            InteropArrayType::Int32
        )))),
        t.as_arrow_type()
    );
}

#[test]
fn test_primitive_interop_types() {
    assert_eq!(
        InteropArrayType::Utf8,
        ConcreteDataType::string_datatype().as_arrow_type()
    );
    assert_eq!(
        InteropArrayType::TimestampMillisecond,
        ConcreteDataType::timestamp_datatype().as_arrow_type()
    );
    assert_eq!(
        InteropArrayType::Null,
        ConcreteDataType::null_datatype().as_arrow_type()
    );
}

#[test]
fn test_type_names_and_ids() {
    assert_eq!("UInt8", ConcreteDataType::uint8_datatype().name());
    assert_eq!("Float64", ConcreteDataType::float64_datatype().name());
    assert_eq!(
        LogicalTypeId::Timestamp,
        ConcreteDataType::timestamp_datatype().logical_type_id()
    );
    let list = ConcreteDataType::list_datatype(ConcreteDataType::uint8_datatype());
    assert_eq!("List", list.name());
    assert_eq!(LogicalTypeId::List, list.logical_type_id());
}

#[test]
fn test_duplicate_preserves_structure() {
    let t = ConcreteDataType::list_datatype(ConcreteDataType::list_datatype(
        ConcreteDataType::string_datatype(),
    ));
    assert_eq!(t, t.duplicate());
    assert_eq!(
        ConcreteDataType::date_datatype(),
        ConcreteDataType::date_datatype().duplicate()
    );
}

#[test]
fn test_default_values() {
    assert_eq!(Value::Int32(0), ConcreteDataType::int32_datatype().default_value());
    assert_eq!(
        Value::String(String::new()),
        ConcreteDataType::string_datatype().default_value()
    );
    assert_eq!(Value::Null, ConcreteDataType::null_datatype().default_value());
    assert_eq!(
        Value::List(ListValue::new(None, ConcreteDataType::uint16_datatype())),
        ConcreteDataType::list_datatype(ConcreteDataType::uint16_datatype()).default_value()
    );
}

#[test]
fn test_list_vector_builder() {
    let t = ListType::new(ConcreteDataType::int32_datatype());
    let mut builder = t.create_mutable_vector(4);
    assert_eq!(
        ConcreteDataType::list_datatype(ConcreteDataType::int32_datatype()),
        builder.data_type()
    );
    builder.push_null();
    builder.push(Value::List(ListValue::new(
        Some(vec![Value::Int32(1), Value::Int32(2)]),
        ConcreteDataType::int32_datatype(),
    )));
    builder.push(Value::Null);
    let v = builder.finish();
    assert_eq!(3, v.len());
    assert!(!v.is_empty());
    assert!(v.is_null(0));
    assert!(!v.is_null(1));
    assert!(v.is_null(2));
    let expected = ListValue::new(
        Some(vec![Value::Int32(1), Value::Int32(2)]),
        ConcreteDataType::int32_datatype(),
    );
    assert_eq!(ValueRef::List(&expected), v.get_ref(1));
    assert_eq!(ValueRef::Null, v.get_ref(0));
    assert_eq!(
        ConcreteDataType::list_datatype(ConcreteDataType::int32_datatype()),
        v.data_type()
    );
}

#[test]
fn test_list_builder_from_standalone_factory() {
    let mut builder = ListVectorBuilder::with_type_capacity(ConcreteDataType::boolean_datatype(), 0);
    builder.push(Value::List(ListValue::new(None, ConcreteDataType::boolean_datatype())));
    let v = builder.finish();
    assert_eq!(1, v.len());
    let expected = ListValue::new(None, ConcreteDataType::boolean_datatype());
    assert_eq!(ValueRef::List(&expected), v.get_ref(0));
}

#[test]
fn test_local_namespace() {
    let ns = LocalNamespace::new("wal-0001");
    assert_eq!("wal-0001", ns.name());
    let copy = ns.clone();
    assert_eq!("wal-0001", copy.name());
    let anon = LocalNamespace::default();
    assert_eq!("", anon.name());
}

#[test]
fn test_scalar_udf_new() {
    let signature = Signature {
        input_types: vec![
            ConcreteDataType::int64_datatype(),
            ConcreteDataType::string_datatype(),
        ],
        volatility: Volatility::Immutable,
    };
    let udf = ScalarUdf::new("my_udf", signature, ConcreteDataType::boolean_datatype());
    assert_eq!("my_udf", udf.name);
    assert_eq!(2, udf.signature.input_types.len());
    assert_eq!(Volatility::Immutable, udf.signature.volatility);
    assert_eq!(ConcreteDataType::boolean_datatype(), udf.return_type);
}

#[test]
fn test_value_as_value_ref() {
    let v = Value::String("abc".to_string());
    assert_eq!(ValueRef::String("abc"), v.as_value_ref());
    let v = Value::Binary(vec![9, 8]);
    assert_eq!(ValueRef::Binary(&[9u8, 8u8][..]), v.as_value_ref());
    assert_eq!(ValueRef::Null, Value::Null.as_value_ref());
}

#[test]
fn test_value_ref_to_value() {
    assert_eq!(Value::String("xy".to_string()), ValueRef::String("xy").to_value());
    assert_eq!(Value::Binary(vec![1, 2]), ValueRef::Binary(&[1u8, 2u8]).to_value());
    assert_eq!(Value::Int64(-7), ValueRef::Int64(-7).to_value());
    assert_eq!(Value::Null, ValueRef::Null.to_value());
}
