use cassandra::collection::CassCollection;
use cassandra::collection::CassCollectionType;
use cassandra::collection::DataType;
use cassandra::error::CassError;
use cassandra::value::Inet;
use cassandra::value::TypedValue;
use cassandra::value::Uuid;
use cassandra::value::ValueType;

fn typed(kind: CassCollectionType, element: Option<ValueType>, map_value: Option<ValueType>) -> CassCollection {
    CassCollection::new_from_data_type(DataType { kind, element, map_value }, 8)
}

#[test]
fn new_collection_is_empty_and_untyped() {
    let c = CassCollection::new(CassCollectionType::SET, 5);
    assert_eq!(c.len(), 0);
    assert_eq!(c.item_count(), 5);
    assert_eq!(c.kind(), CassCollectionType::SET);
    assert!(!c.is_bound());
    assert_eq!(c.data_type(), DataType { kind: CassCollectionType::SET, element: None, map_value: None });
    assert!(c.get(0).is_none());
}

#[test]
fn typed_list_keeps_append_order() {
    let mut c = typed(CassCollectionType::LIST, Some(ValueType::Int), None);
    for v in [7, -3, 0, 7, i32::MAX] {
        assert_eq!(c.append_int32(v), Ok(()));
    }
    let expected: Vec<TypedValue> = [7, -3, 0, 7, i32::MAX].iter().map(|v| TypedValue::Int32(*v)).collect();
    assert_eq!(c.values(), &expected);
    assert_eq!(c.get(1), Some(&TypedValue::Int32(-3)));
    assert_eq!(c.bind(), Ok(5));
}

#[test]
fn bool_into_int_list_is_a_type_mismatch() {
    let mut c = typed(CassCollectionType::LIST, Some(ValueType::Int), None);
    assert_eq!(c.append_int32(1), Ok(()));
    assert_eq!(c.append_bool(true), Err(CassError::TypeMismatch));
    assert_eq!(c.len(), 1);
    assert_eq!(c.values(), &vec![TypedValue::Int32(1)]);
}

#[test]
fn map_of_two_n_appends_binds_n_pairs() {
    let mut c = typed(CassCollectionType::MAP, Some(ValueType::Text), Some(ValueType::BigInt));
    assert_eq!(c.append_string("a"), Ok(()));
    assert_eq!(c.append_int64(10), Ok(()));
    assert_eq!(c.append_string("b"), Ok(()));
    assert_eq!(c.append_int64(20), Ok(()));
    assert_eq!(c.map_entry(1), Some((&TypedValue::Text("b".to_string()), &TypedValue::Int64(20))));
    assert_eq!(c.map_entry(2), None);
    assert_eq!(c.bind(), Ok(2));
    assert!(c.is_bound());
}

#[test]
fn map_checks_key_and_value_types_by_position() {
    let mut c = typed(CassCollectionType::MAP, Some(ValueType::Text), Some(ValueType::BigInt));
    assert_eq!(c.append_int64(1), Err(CassError::TypeMismatch));
    assert_eq!(c.append_string("k"), Ok(()));
    assert_eq!(c.append_string("v"), Err(CassError::TypeMismatch));
    assert_eq!(c.len(), 1);
}

#[test]
fn odd_map_fails_at_bind() {
    let mut c = CassCollection::new(CassCollectionType::MAP, 3);
    assert_eq!(c.append_int8(1), Ok(()));
    assert_eq!(c.append_int16(2), Ok(()));
    assert_eq!(c.append_uint32(3), Ok(()));
    assert_eq!(c.bind(), Err(CassError::EncodingError));
    assert!(!c.is_bound());
    assert_eq!(c.append_uint32(4), Ok(()));
    assert_eq!(c.bind(), Ok(2));
}

#[test]
fn bound_collection_refuses_appends() {
    let mut c = CassCollection::new(CassCollectionType::LIST, 1);
    assert_eq!(c.append_bool(false), Ok(()));
    assert_eq!(c.bind(), Ok(1));
    assert_eq!(c.append_bool(true), Err(CassError::AlreadyBound));
    assert_eq!(c.bind(), Err(CassError::AlreadyBound));
    assert_eq!(c.len(), 1);
}

#[test]
fn text_with_nul_cannot_be_encoded() {
    let mut c = CassCollection::new(CassCollectionType::LIST, 1);
    assert_eq!(c.append_string("a\0b"), Err(CassError::EncodingError));
    assert_eq!(c.append_string(""), Ok(()));
    assert_eq!(c.append_string("ünï"), Ok(()));
    assert_eq!(c.len(), 2);
}

#[test]
fn inet_needs_four_or_sixteen_bytes() {
    let mut c = typed(CassCollectionType::SET, Some(ValueType::Inet), None);
    assert_eq!(c.append_inet(Inet { address: vec![127, 0, 0] }), Err(CassError::EncodingError));
    assert_eq!(c.append_inet(Inet { address: vec![127, 0, 0, 1] }), Ok(()));
    assert_eq!(c.append_inet(Inet { address: vec![0; 16] }), Ok(()));
    assert_eq!(c.len(), 2);
}

#[test]
fn nested_collections_are_checked_by_kind() {
    let mut outer = typed(CassCollectionType::LIST, Some(ValueType::SetOf), None);
    let inner_list = CassCollection::new(CassCollectionType::LIST, 0);
    assert_eq!(outer.append_set(inner_list), Err(CassError::TypeMismatch));
    let mut inner_set = CassCollection::new(CassCollectionType::SET, 0);
    assert_eq!(inner_set.append_bytes(vec![1, 2]), Ok(()));
    assert_eq!(outer.append_set(inner_set), Ok(()));
    let inner_list = CassCollection::new(CassCollectionType::LIST, 0);
    assert_eq!(outer.append_list(inner_list), Err(CassError::TypeMismatch));
    assert_eq!(outer.len(), 1);
}

#[test]
fn nested_map_with_unpaired_key_cannot_be_encoded() {
    let mut outer = CassCollection::new(CassCollectionType::LIST, 0);
    let mut m = CassCollection::new(CassCollectionType::MAP, 0);
    assert_eq!(m.append_int8(1), Ok(()));
    assert_eq!(outer.append_map(m), Err(CassError::EncodingError));
    let mut m = CassCollection::new(CassCollectionType::MAP, 0);
    assert_eq!(m.append_int8(1), Ok(()));
    assert_eq!(m.append_int8(2), Ok(()));
    assert_eq!(outer.append_map(m), Ok(()));
}

#[test]
fn untyped_list_takes_any_value() {
    let mut c = CassCollection::new(CassCollectionType::LIST, 0);
    let u = Uuid { time_and_version: 1, clock_seq_and_node: 2 };
    assert_eq!(c.append_uuid(u), Ok(()));
    assert_eq!(c.append_tuple(vec![TypedValue::Bool(true), TypedValue::Int8(-1)]), Ok(()));
    assert_eq!(c.append_user_type(vec![("f".to_string(), TypedValue::Int16(9))]), Ok(()));
    assert_eq!(c.append(TypedValue::Text("x".to_string())), Ok(()));
    assert_eq!(c.len(), 4);
    assert_eq!(c.get(0), Some(&TypedValue::Uuid(u)));
}

#[test]
fn value_types_follow_variants() {
    assert_eq!(TypedValue::Int8(0).value_type(), ValueType::TinyInt);
    assert_eq!(TypedValue::UInt32(0).value_type(), ValueType::Date);
    assert_eq!(TypedValue::Bytes(vec![]).value_type(), ValueType::Blob);
    let m = CassCollection::new(CassCollectionType::MAP, 0);
    assert_eq!(TypedValue::Collection(m).value_type(), ValueType::MapOf);
    assert!(!TypedValue::Text("\0".to_string()).is_encodable());
    assert!(TypedValue::Text("ok".to_string()).is_encodable());
}

#[test]
fn status_codes_map_to_errors() {
    assert_eq!(CassError::build(0), Ok(()));
    assert_eq!(CassError::build(0x0100_0004), Err(CassError::EncodingError));
    assert_eq!(CassError::build(0x0100_000B), Err(CassError::IndexError));
    assert_eq!(CassError::build(0x0100_000D), Err(CassError::TypeMismatch));
    assert_eq!(CassError::build(0x0200_2200), Err(CassError::ExecutionError(0x0200_2200)));
    assert_eq!(CassError::build(0x0100_0001), Err(CassError::Unknown(0x0100_0001)));
    assert_eq!(CassError::build(0x0300_0001), Err(CassError::Unknown(0x0300_0001)));
    assert_eq!(CassError::build(u32::MAX), Err(CassError::Unknown(u32::MAX)));
}
