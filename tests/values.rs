use sqlx_any::{
    AnyArguments, AnyDecode, AnyDecodeError, AnyEncode, AnyType, AnyTypeInfo, AnyTypeInfoKind,
    AnyValue, AnyValueKind, AnyValueRef, BlobData, IsNull, TextData,
};

fn text_of(kind: &AnyValueKind<'_>) -> Option<String> {
    match kind {
        AnyValueKind::Text(t) => Some(t.as_str().to_string()),
        _ => None,
    }
}

fn blob_of(kind: &AnyValueKind<'_>) -> Option<Vec<u8>> {
    match kind {
        AnyValueKind::Blob(b) => Some(b.as_slice().to_vec()),
        _ => None,
    }
}

fn owned(kind: AnyValueKind<'static>) -> AnyValue {
    AnyValue { kind }
}

#[test]
fn kind_names_match_table() {
    let table = [
        (AnyTypeInfoKind::Null, "NULL"),
        (AnyTypeInfoKind::SmallInt, "SMALLINT"),
        (AnyTypeInfoKind::Integer, "INTEGER"),
        (AnyTypeInfoKind::BigInt, "BIGINT"),
        (AnyTypeInfoKind::Real, "REAL"),
        (AnyTypeInfoKind::Double, "DOUBLE"),
        (AnyTypeInfoKind::Text, "TEXT"),
        (AnyTypeInfoKind::Blob, "BLOB"),
    ];
    for (kind, name) in table {
        let info = AnyTypeInfo::new(kind);
        assert_eq!(info.name(), name);
        assert_eq!(info.to_string(), name);
        assert_eq!(info.kind(), kind);
    }
}

#[test]
fn type_info_is_null_only_for_null_kind() {
    assert!(AnyTypeInfo::new(AnyTypeInfoKind::Null).is_null());
    assert!(!AnyTypeInfo::new(AnyTypeInfoKind::Integer).is_null());
    assert!(!AnyTypeInfo::new(AnyTypeInfoKind::Text).is_null());
}

#[test]
fn host_types_declare_their_kinds() {
    assert_eq!(<i16 as AnyType>::type_info().kind, AnyTypeInfoKind::SmallInt);
    assert_eq!(<i32 as AnyType>::type_info().kind, AnyTypeInfoKind::Integer);
    assert_eq!(<i64 as AnyType>::type_info().kind, AnyTypeInfoKind::BigInt);
    assert_eq!(<&str as AnyType>::type_info().kind, AnyTypeInfoKind::Text);
    assert_eq!(<String as AnyType>::type_info().kind, AnyTypeInfoKind::Text);
    assert_eq!(<&[u8] as AnyType>::type_info().kind, AnyTypeInfoKind::Blob);
    assert_eq!(<Vec<u8> as AnyType>::type_info().kind, AnyTypeInfoKind::Blob);
    assert_eq!(<Option<i32> as AnyType>::type_info().kind, AnyTypeInfoKind::Integer);
}

#[test]
fn encode_hello_then_decode() {
    let mut buf = AnyArguments::new();
    let marker = "hello".encode(&mut buf);
    assert_eq!(marker, IsNull::No);
    assert_eq!(buf.len(), 1);
    assert_eq!(buf.values[0].kind(), AnyTypeInfoKind::Text);
    assert_eq!(text_of(&buf.values[0]), Some("hello".to_string()));
    let view = AnyValueRef { kind: buf.values[0].clone() };
    assert!(!view.is_null());
    assert!(!view.to_owned().is_null());
    let back = <&str as AnyDecode>::decode(view).unwrap();
    assert_eq!(back, "hello");
}

#[test]
fn encode_null_integer_parameter() {
    let mut buf = AnyArguments::new();
    let marker = Option::<i32>::None.encode(&mut buf);
    assert_eq!(marker, IsNull::Yes);
    assert_eq!(buf.len(), 1);
    assert!(matches!(buf.values[0], AnyValueKind::Null));
    let value = owned(AnyValueKind::Null);
    assert!(value.is_null());
    assert!(value.as_ref().is_null());
    assert_eq!(value.type_info().kind, AnyTypeInfoKind::Null);
}

#[test]
fn encode_some_integer_is_not_null() {
    let mut buf = AnyArguments::new();
    assert_eq!(Some(7i32).encode(&mut buf), IsNull::No);
    assert!(matches!(buf.values[0], AnyValueKind::Integer(7)));
}

#[test]
fn decode_text_as_integer_is_mismatch() {
    let view = AnyValueRef { kind: AnyValueKind::Text(TextData::Borrowed("12")) };
    let err = <i32 as AnyDecode>::decode(view).unwrap_err();
    assert_eq!(
        err,
        AnyDecodeError::TypeMismatch {
            expected: AnyTypeInfoKind::Integer,
            actual: AnyTypeInfoKind::Text,
        }
    );
    assert_eq!(err.message(), "expected INTEGER, got TEXT");
}

#[test]
fn decode_other_mismatches() {
    let null = AnyValueRef { kind: AnyValueKind::Null };
    let err = <i64 as AnyDecode>::decode(null).unwrap_err();
    assert_eq!(err.message(), "expected BIGINT, got NULL");

    let int = AnyValueRef { kind: AnyValueKind::Integer(3) };
    let err = <i16 as AnyDecode>::decode(int).unwrap_err();
    assert_eq!(err.message(), "expected SMALLINT, got INTEGER");

    let int = AnyValueRef { kind: AnyValueKind::Integer(3) };
    let err = <&str as AnyDecode>::decode(int).unwrap_err();
    assert_eq!(err.message(), "expected TEXT, got INTEGER");

    let bytes: &[u8] = &[1, 2];
    let blob = AnyValueRef { kind: AnyValueKind::Blob(BlobData::Borrowed(bytes)) };
    let err = <String as AnyDecode>::decode(blob).unwrap_err();
    assert_eq!(err.message(), "expected TEXT, got BLOB");

    let real = AnyValueRef { kind: AnyValueKind::Real(1.5f32.to_bits()) };
    let err = <Vec<u8> as AnyDecode>::decode(real).unwrap_err();
    assert_eq!(err.message(), "expected BLOB, got REAL");

    let double = AnyValueRef { kind: AnyValueKind::Double(2.5f64.to_bits()) };
    let err = <&[u8] as AnyDecode>::decode(double).unwrap_err();
    assert_eq!(err.message(), "expected BLOB, got DOUBLE");
}

fn first_view<'q>(buf: &AnyArguments<'q>) -> AnyValueRef<'q> {
    AnyValueRef { kind: buf.values[0].clone() }
}

#[test]
fn round_trip_integers() {
    let mut buf = AnyArguments::new();
    (-12i16).encode(&mut buf);
    assert_eq!(<i16 as AnyDecode>::decode(first_view(&buf)), Ok(-12i16));

    let mut buf = AnyArguments::new();
    i32::MIN.encode(&mut buf);
    assert_eq!(<i32 as AnyDecode>::decode(first_view(&buf)), Ok(i32::MIN));

    let mut buf = AnyArguments::new();
    i64::MAX.encode(&mut buf);
    assert_eq!(<i64 as AnyDecode>::decode(first_view(&buf)), Ok(i64::MAX));
}

#[test]
fn round_trip_text_and_blob() {
    let mut buf = AnyArguments::new();
    String::from("owned text").encode(&mut buf);
    assert_eq!(<String as AnyDecode>::decode(first_view(&buf)), Ok(String::from("owned text")));

    let mut buf = AnyArguments::new();
    "".encode(&mut buf);
    assert_eq!(<&str as AnyDecode>::decode(first_view(&buf)), Ok(""));

    let bytes: &[u8] = &[0, 255, 7];
    let mut buf = AnyArguments::new();
    bytes.encode(&mut buf);
    assert_eq!(<&[u8] as AnyDecode>::decode(first_view(&buf)), Ok(bytes));

    let mut buf = AnyArguments::new();
    vec![9u8, 8, 7].encode(&mut buf);
    assert_eq!(<Vec<u8> as AnyDecode>::decode(first_view(&buf)), Ok(vec![9u8, 8, 7]));
}

#[test]
fn encode_by_ref_leaves_value_usable() {
    let s = String::from("kept");
    let v = vec![1u8, 2, 3];
    let n: i32 = 5;
    let mut buf = AnyArguments::new();
    assert_eq!(s.encode_by_ref(&mut buf), IsNull::No);
    assert_eq!(v.encode_by_ref(&mut buf), IsNull::No);
    assert_eq!(n.encode_by_ref(&mut buf), IsNull::No);
    assert_eq!(Option::<String>::None.encode_by_ref(&mut buf), IsNull::Yes);
    assert_eq!(s, "kept");
    assert_eq!(v, vec![1u8, 2, 3]);
    assert_eq!(text_of(&buf.values[0]), Some("kept".to_string()));
    assert_eq!(blob_of(&buf.values[1]), Some(vec![1u8, 2, 3]));
    assert!(matches!(buf.values[2], AnyValueKind::Integer(5)));
    assert!(matches!(buf.values[3], AnyValueKind::Null));
}

#[test]
fn encode_keeps_argument_order() {
    let mut buf = AnyArguments::new();
    1i64.encode(&mut buf);
    "two".encode(&mut buf);
    3i16.encode(&mut buf);
    assert_eq!(buf.len(), 3);
    assert!(matches!(buf.values[0], AnyValueKind::BigInt(1)));
    assert_eq!(text_of(&buf.values[1]), Some("two".to_string()));
    assert!(matches!(buf.values[2], AnyValueKind::SmallInt(3)));
}

#[test]
fn view_then_copy_keeps_every_kind() {
    let values = vec![
        owned(AnyValueKind::Null),
        owned(AnyValueKind::SmallInt(-1)),
        owned(AnyValueKind::Integer(42)),
        owned(AnyValueKind::BigInt(-7_000_000_000)),
        owned(AnyValueKind::Real(0.25f32.to_bits())),
        owned(AnyValueKind::Double((-1.0e300f64).to_bits())),
        owned(AnyValueKind::Text(TextData::Owned(String::from("abc")))),
        owned(AnyValueKind::Blob(BlobData::Owned(vec![1, 2, 3]))),
    ];
    for v in &values {
        let copy = v.as_ref().to_owned();
        assert_eq!(copy.type_info(), v.type_info());
        assert_eq!(copy.is_null(), v.is_null());
        assert_eq!(text_of(&copy.kind), text_of(&v.kind));
        assert_eq!(blob_of(&copy.kind), blob_of(&v.kind));
        match (&copy.kind, &v.kind) {
            (AnyValueKind::SmallInt(a), AnyValueKind::SmallInt(b)) => assert_eq!(a, b),
            (AnyValueKind::Integer(a), AnyValueKind::Integer(b)) => assert_eq!(a, b),
            (AnyValueKind::BigInt(a), AnyValueKind::BigInt(b)) => assert_eq!(a, b),
            (AnyValueKind::Real(a), AnyValueKind::Real(b)) => {
                assert_eq!(a, b);
                assert_eq!(f32::from_bits(*a), 0.25f32);
            },
            (AnyValueKind::Double(a), AnyValueKind::Double(b)) => assert_eq!(a, b),
            (AnyValueKind::Null, AnyValueKind::Null) => {},
            (AnyValueKind::Text(_), AnyValueKind::Text(_)) => {},
            (AnyValueKind::Blob(_), AnyValueKind::Blob(_)) => {},
            _ => panic!("kind changed"),
        }
    }
}

#[test]
fn as_ref_borrows_payload() {
    let v = owned(AnyValueKind::Text(TextData::Owned(String::from("abc"))));
    let view = v.as_ref();
    assert!(matches!(view.kind, AnyValueKind::Text(TextData::Borrowed("abc"))));
    let b = owned(AnyValueKind::Blob(BlobData::Owned(vec![4, 5])));
    let view = b.as_ref();
    assert!(matches!(view.kind, AnyValueKind::Blob(BlobData::Borrowed(&[4, 5]))));
    assert_eq!(<&str as AnyDecode>::decode(v.as_ref()), Ok("abc"));
}

#[test]
fn to_owned_copies_do_not_alias_source() {
    let mut text = String::from("row text");
    let mut bytes = vec![1u8, 2, 3];
    let (t, b) = {
        let tv = AnyValueRef { kind: AnyValueKind::Text(TextData::Borrowed(&text)) };
        let bv = AnyValueRef { kind: AnyValueKind::Blob(BlobData::Borrowed(&bytes)) };
        (tv.to_owned(), bv.to_owned())
    };
    assert!(matches!(t.kind, AnyValueKind::Text(TextData::Owned(_))));
    assert!(matches!(b.kind, AnyValueKind::Blob(BlobData::Owned(_))));
    text.push_str(" changed");
    bytes[0] = 99;
    drop(text);
    drop(bytes);
    assert_eq!(text_of(&t.kind), Some("row text".to_string()));
    assert_eq!(blob_of(&b.kind), Some(vec![1u8, 2, 3]));
}
