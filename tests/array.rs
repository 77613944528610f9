use vecdb::cmp::compare_bytes;
use vecdb::string::contains_bytes;
use vecdb::{
    build_array, Array, ArrayBuilder, ArrayImpl, BoolArray, I32Array, I32ArrayBuilder, I64Array,
    Scalar, ScalarImpl, ScalarRef, StringArray, StringArrayBuilder,
};

fn check_repeated_i32(array: &I32Array, item: i32, len: usize) {
    assert_eq!(array.len(), len);
    let mut it = array.iter();
    let mut n = 0;
    while let Some(a) = it.next() {
        assert_eq!(a, Some(item));
        n += 1;
    }
    assert_eq!(n, len);
}

fn check_repeated_str(array: &StringArray, item: &str, len: usize) {
    assert_eq!(array.len(), len);
    let mut it = array.iter();
    let mut n = 0;
    while let Some(a) = it.next() {
        assert_eq!(a, Some(item));
        n += 1;
    }
    assert_eq!(n, len);
}

#[test]
fn test_build_int32_repeat_array() {
    let mut builder = I32ArrayBuilder::with_capacity(233);
    for _ in 0..233 {
        builder.push(Some(1));
    }
    let array = builder.finish();
    check_repeated_i32(&array, 1, 233);

    let item: i32 = 1;
    let mut builder = I32ArrayBuilder::with_capacity(233);
    for _ in 0..233 {
        builder.push(Some(item.as_scalar_ref()));
    }
    let array = builder.finish();
    check_repeated_i32(&array, 1, 233);
}

#[test]
fn test_build_string_repeat_array() {
    let mut builder = StringArrayBuilder::with_capacity(5);
    for _ in 0..5 {
        builder.push(Some("233"));
    }
    let array = builder.finish();
    check_repeated_str(&array, "233", 5);

    let item = "233".to_owned();
    let mut builder = StringArrayBuilder::with_capacity(5);
    for _ in 0..5 {
        builder.push(Some(item.as_scalar_ref()));
    }
    let array = builder.finish();
    check_repeated_str(&array, "233", 5);
}

#[test]
fn builder_keeps_values_and_nulls_in_order() {
    let mut builder = StringArrayBuilder::with_capacity(1);
    builder.push(Some("héllo"));
    builder.push(None);
    builder.push(Some(""));
    builder.push(Some("日本"));
    builder.push(None);
    let array = builder.finish();
    assert_eq!(array.len(), 5);
    assert_eq!(array.get(0), Some("héllo"));
    assert_eq!(array.get(1), None);
    assert_eq!(array.get(2), Some(""));
    assert_eq!(array.get(3), Some("日本"));
    assert_eq!(array.get(4), None);
}

#[test]
fn primitive_nulls_read_as_absent() {
    let array = I64Array::from_slice(&[Some(-7), None, Some(i64::MAX)]);
    assert_eq!(array.len(), 3);
    assert_eq!(array.get(0), Some(-7));
    assert_eq!(array.get(1), None);
    assert_eq!(array.get(2), Some(i64::MAX));
    assert!(!array.is_empty());
}

#[test]
fn empty_builder_gives_empty_column() {
    let array = StringArrayBuilder::with_capacity(0).finish();
    assert!(array.is_empty());
    assert_eq!(array.len(), 0);
    assert_eq!(array.iter().next(), None);
}

#[test]
fn build_array_from_slice() {
    let array = build_array::<StringArrayBuilder>(&[Some("a"), None, Some("bc")]);
    assert_eq!(array.len(), 3);
    assert_eq!(array.get(0), Some("a"));
    assert_eq!(array.get(1), None);
    assert_eq!(array.get(2), Some("bc"));
}

#[test]
fn iterator_ends_after_last_slot() {
    let array = BoolArray::from_slice(&[Some(true), None]);
    let mut it = array.iter();
    assert_eq!(it.next(), Some(Some(true)));
    assert_eq!(it.next(), Some(None));
    assert_eq!(it.next(), None);
    assert_eq!(it.next(), None);
}

#[test]
fn column_widen_then_narrow() {
    let any = I32Array::from_slice(&[Some(4), None]).into_any();
    assert_eq!(any.identifier(), "Int32");
    assert_eq!(any.len(), 2);
    let back = I32Array::try_from_any(&any).unwrap();
    assert_eq!(back.get(0), Some(4));
    assert_eq!(back.get(1), None);
}

#[test]
fn integer_column_narrowed_as_text_fails() {
    let any = I32Array::from_slice(&[Some(1), Some(2)]).into_any();
    let err = match StringArray::try_from_any(&any) {
        Ok(_) => panic!("narrowing should fail"),
        Err(e) => e,
    };
    assert_eq!(err.expected(), "String");
    assert_eq!(err.actual(), "Int32");
    assert!(I64Array::try_from_any(&any).is_err());
    assert!(BoolArray::try_from_any(&any).is_err());
}

#[test]
fn identifiers_name_variants() {
    assert_eq!(I32Array::identifier(), "Int32");
    assert_eq!(I64Array::identifier(), "Int64");
    assert_eq!(BoolArray::identifier(), "Bool");
    assert_eq!(StringArray::identifier(), "String");
    let any = StringArray::from_slice(&[Some("x")]).into_any();
    assert!(matches!(any, ArrayImpl::String(_)));
    assert_eq!(any.identifier(), "String");
}

#[test]
fn scalar_round_trips() {
    let s = "héllo".to_owned();
    let r = s.as_scalar_ref();
    assert_eq!(r, "héllo");
    assert_eq!(r.to_owned_scalar(), s);
    let v: i64 = -12;
    assert_eq!(v.as_scalar_ref().to_owned_scalar(), -12);
    let b = true;
    assert!(b.as_scalar_ref().to_owned_scalar());
}

#[test]
fn scalar_widen_then_narrow() {
    let any = "abc".to_owned().into_any();
    assert_eq!(any.identifier(), "String");
    assert_eq!(String::try_from_any(any).unwrap(), "abc");
    let any = 7i32.into_any();
    assert!(matches!(any, ScalarImpl::Int32(7)));
    let err = String::try_from_any(any).unwrap_err();
    assert_eq!(err.expected(), "String");
    assert_eq!(err.actual(), "Int32");
    assert_eq!(i32::try_from_any(5i32.into_any()).unwrap(), 5);
    let err = i64::try_from_any(false.into_any()).unwrap_err();
    assert_eq!(err.expected(), "Int64");
    assert_eq!(err.actual(), "Bool");
}

#[test]
fn erased_scalar_reference_round_trip() {
    let owned = ScalarImpl::String("日本".to_owned());
    let r = owned.as_scalar_ref();
    assert_eq!(r.identifier(), "String");
    assert!(matches!(r, vecdb::ScalarRefImpl::String("日本")));
    assert_eq!(r.to_owned_scalar(), owned);
    let n = ScalarImpl::Int64(-3);
    assert_eq!(n.as_scalar_ref().identifier(), "Int64");
    assert_eq!(n.as_scalar_ref().to_owned_scalar(), ScalarImpl::Int64(-3));
    assert_eq!(ScalarImpl::Bool(true).identifier(), "Bool");
}

#[test]
fn byte_order_and_search() {
    assert_eq!(compare_bytes(b"abc", b"abd"), -1);
    assert_eq!(compare_bytes(b"abc", b"ab"), 1);
    assert_eq!(compare_bytes(b"", b""), 0);
    assert_eq!(compare_bytes(b"\xff", b"a"), 1);
    assert!(contains_bytes(b"hello", b"llo"));
    assert!(contains_bytes(b"hello", b""));
    assert!(!contains_bytes(b"hello", b"lol"));
    assert!(!contains_bytes(b"", b"a"));
    assert!(contains_bytes(b"aaab", b"aab"));
}
