use sqlx_rxqlite::arguments::RXQLiteArguments;
use sqlx_rxqlite::type_info::{DataType, RXQLiteTypeInfo, WireTypeInfo};
use sqlx_rxqlite::types::{
    decode_text, encode_text, text_compatible, text_type_info, IsNull, RXQLiteDecode,
    RXQLiteEncode, RXQLiteType,
};
use sqlx_rxqlite::value::{DecodeError, RXQLiteValue, SqlValue};

fn v(value: SqlValue) -> RXQLiteValue {
    RXQLiteValue::new(value, RXQLiteTypeInfo(DataType::Int))
}

#[test]
fn wire_type_info_maps_by_name() {
    let pairs = [
        (WireTypeInfo::Null, DataType::Null),
        (WireTypeInfo::Int, DataType::Int),
        (WireTypeInfo::Float, DataType::Float),
        (WireTypeInfo::Text, DataType::Text),
        (WireTypeInfo::Blob, DataType::Blob),
        (WireTypeInfo::Numeric, DataType::Numeric),
        (WireTypeInfo::Bool, DataType::Bool),
        (WireTypeInfo::Int64, DataType::Int64),
        (WireTypeInfo::Date, DataType::Date),
        (WireTypeInfo::Time, DataType::Time),
        (WireTypeInfo::DateTime, DataType::Datetime),
    ];
    for (w, d) in pairs {
        assert_eq!(w.into_rxqlite_type_info(), RXQLiteTypeInfo(d));
    }
}

#[test]
fn bool_type_info_and_compatibility() {
    assert_eq!(<bool as RXQLiteType>::type_info(), RXQLiteTypeInfo(DataType::Bool));
    assert!(<bool as RXQLiteType>::compatible(&RXQLiteTypeInfo(DataType::Bool)));
    assert!(<bool as RXQLiteType>::compatible(&RXQLiteTypeInfo(DataType::Int)));
    assert!(<bool as RXQLiteType>::compatible(&RXQLiteTypeInfo(DataType::Int64)));
    assert!(!<bool as RXQLiteType>::compatible(&RXQLiteTypeInfo(DataType::Text)));
    assert!(!<bool as RXQLiteType>::compatible(&RXQLiteTypeInfo(DataType::Float)));
}

#[test]
fn bool_encodes_as_integer() {
    let mut args = vec![SqlValue::Null];
    assert_eq!(true.encode_by_ref(&mut args), IsNull::No);
    assert_eq!(false.encode_by_ref(&mut args), IsNull::No);
    assert_eq!(args, vec![SqlValue::Null, SqlValue::Int(1), SqlValue::Int(0)]);
}

#[test]
fn bool_decodes_from_integer() {
    assert_eq!(<bool as RXQLiteDecode>::decode(&v(SqlValue::Int(0))), Ok(false));
    assert_eq!(<bool as RXQLiteDecode>::decode(&v(SqlValue::Int(1))), Ok(true));
    assert_eq!(<bool as RXQLiteDecode>::decode(&v(SqlValue::Int(-7))), Ok(true));
    assert_eq!(
        <bool as RXQLiteDecode>::decode(&v(SqlValue::Null)),
        Err(DecodeError::UnexpectedNull)
    );
    assert_eq!(
        <bool as RXQLiteDecode>::decode(&v(SqlValue::String("1".to_string()))),
        Err(DecodeError::MismatchedType)
    );
}

#[test]
fn bool_roundtrip() {
    for b in [true, false] {
        let mut args = Vec::new();
        b.encode_by_ref(&mut args);
        let value = v(args.pop().unwrap());
        assert_eq!(<bool as RXQLiteDecode>::decode(&value), Ok(b));
    }
}

#[test]
fn text_uses_string_type() {
    assert_eq!(text_type_info(), RXQLiteTypeInfo(DataType::Text));
    assert!(text_compatible(&RXQLiteTypeInfo(DataType::Text)));
    assert!(!text_compatible(&RXQLiteTypeInfo(DataType::Int)));
}

#[test]
fn text_encodes_display_form() {
    let mut args = Vec::new();
    assert_eq!(encode_text(&42i32, &mut args), IsNull::No);
    assert_eq!(encode_text(&"hé", &mut args), IsNull::No);
    assert_eq!(
        args,
        vec![SqlValue::String("42".to_string()), SqlValue::String("hé".to_string())]
    );
}

#[test]
fn text_decodes_strings_only() {
    assert_eq!(decode_text(&v(SqlValue::String("abc".to_string()))), Ok("abc".to_string()));
    assert_eq!(decode_text(&v(SqlValue::Null)), Err(DecodeError::UnexpectedNull));
    assert_eq!(decode_text(&v(SqlValue::Int(3))), Err(DecodeError::MismatchedType));
    let parsed: i32 = decode_text(&v(SqlValue::String("17".to_string()))).unwrap().parse().unwrap();
    assert_eq!(parsed, 17);
}

#[test]
fn string_roundtrip() {
    let mut args = Vec::new();
    "hello".to_string().encode_by_ref(&mut args);
    let value = v(args.pop().unwrap());
    assert_eq!(<String as RXQLiteDecode>::decode(&value), Ok("hello".to_string()));
}

#[test]
fn value_accessors() {
    assert!(v(SqlValue::Null).is_null());
    assert!(!v(SqlValue::Int(0)).is_null());
    assert_eq!(v(SqlValue::Int(5)).as_int(), Ok(5));
    assert_eq!(v(SqlValue::Bool(true)).as_int(), Err(DecodeError::MismatchedType));
}

#[test]
fn arguments_record_values_and_types() {
    let mut args = RXQLiteArguments::new();
    assert_eq!(args.len(), 0);
    args.add(true);
    args.add("Ha".to_string());
    args.add(false);
    assert_eq!(args.len(), 3);
    assert_eq!(
        args.values,
        vec![SqlValue::Int(1), SqlValue::String("Ha".to_string()), SqlValue::Int(0)]
    );
    assert_eq!(
        args.types,
        vec![
            RXQLiteTypeInfo(DataType::Bool),
            RXQLiteTypeInfo(DataType::Text),
            RXQLiteTypeInfo(DataType::Bool)
        ]
    );
}

#[test]
fn arguments_reserve_keeps_contents() {
    let mut args = RXQLiteArguments::new();
    args.add(true);
    args.reserve(10, 20);
    assert_eq!(args.len(), 1);
    assert_eq!(args.values, vec![SqlValue::Int(1)]);
    assert!(args.types.capacity() >= 11);
    assert!(args.values.capacity() >= 21);
}

#[test]
fn arguments_default_is_empty() {
    let args = RXQLiteArguments::default();
    assert_eq!(args.len(), 0);
    assert!(args.values.is_empty());
}

#[test]
fn option_binds_null_with_inner_type() {
    let mut a = RXQLiteArguments::default();
    a.add(true);
    a.add(None::<bool>);
    a.add(Some("x".to_string()));
    assert_eq!(
        a.values,
        vec![SqlValue::Int(1), SqlValue::Null, SqlValue::String("x".to_string())]
    );
    assert_eq!(
        a.types,
        vec![
            RXQLiteTypeInfo(DataType::Bool),
            RXQLiteTypeInfo(DataType::Bool),
            RXQLiteTypeInfo(DataType::Text)
        ]
    );
    assert_eq!(a.len(), 3);
}

#[test]
fn option_type_and_encoding() {
    assert_eq!(<Option<bool> as RXQLiteType>::type_info(), RXQLiteTypeInfo(DataType::Bool));
    assert!(<Option<bool> as RXQLiteType>::compatible(&RXQLiteTypeInfo(DataType::Int)));
    let mut args = Vec::new();
    assert_eq!(None::<bool>.encode_by_ref(&mut args), IsNull::Yes);
    assert!(args.is_empty());
    assert_eq!(Some(false).encode_by_ref(&mut args), IsNull::No);
    assert_eq!(args, vec![SqlValue::Int(0)]);
}

#[test]
fn option_decodes_null_as_none() {
    assert_eq!(<Option<bool> as RXQLiteDecode>::decode(&v(SqlValue::Null)), Ok(None));
    assert_eq!(<Option<bool> as RXQLiteDecode>::decode(&v(SqlValue::Int(2))), Ok(Some(true)));
    assert_eq!(
        <Option<bool> as RXQLiteDecode>::decode(&v(SqlValue::Blob(vec![]))),
        Err(DecodeError::MismatchedType)
    );
    assert_eq!(
        <Option<String> as RXQLiteDecode>::decode(&v(SqlValue::String("s".to_string()))),
        Ok(Some("s".to_string()))
    );
}

#[test]
fn len_counts_adds() {
    let mut a = RXQLiteArguments::default();
    for i in 0..5 {
        a.add(i % 2 == 0);
        assert_eq!(a.len(), i + 1);
        assert_eq!(a.values.len(), i + 1);
    }
}
