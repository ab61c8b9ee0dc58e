use jni_toolbox::convert::{from_java_static, into_java_static, read_scalar, write_scalar};
use jni_toolbox::model::{BaseType, NativeValue, Scalar, SemanticType, WireScalar, WireValue};
use jni_toolbox::registry::{lookup, ConversionError, ForwardPolicy, JniToolboxError};
use jni_toolbox::model::BoundaryType;
use jni_toolbox::typed::{FromJava, IntoJava, IntoJavaObject};

fn wire(s: WireScalar) -> WireValue {
    WireValue::Scalar(s)
}

fn single(s: Scalar) -> NativeValue {
    NativeValue::Single(s)
}

#[test]
fn integers_pass_through_both_ways() {
    let cases = vec![
        (BaseType::Byte, WireScalar::Byte(-7), Scalar::Byte(-7)),
        (BaseType::Short, WireScalar::Short(i16::MIN), Scalar::Short(i16::MIN)),
        (BaseType::Int, WireScalar::Int(i32::MAX), Scalar::Int(i32::MAX)),
        (BaseType::Long, WireScalar::Long(-1), Scalar::Long(-1)),
    ];
    for (b, w, x) in cases {
        assert_eq!(read_scalar(b, &w), Ok(x.clone()));
        assert_eq!(write_scalar(b, &x), Ok(w));
    }
}

#[test]
fn floats_round_trip_by_bits() {
    let f = 1.5f32;
    let d = -0.25f64;
    let wf = WireScalar::Float(f.to_bits());
    let wd = WireScalar::Double(d.to_bits());
    let xf = read_scalar(BaseType::Float, &wf).unwrap();
    let xd = read_scalar(BaseType::Double, &wd).unwrap();
    assert_eq!(xf, Scalar::Float(f.to_bits()));
    assert_eq!(write_scalar(BaseType::Float, &xf), Ok(wf));
    assert_eq!(write_scalar(BaseType::Double, &xd), Ok(wd));
    let nan = f64::NAN.to_bits();
    let back = write_scalar(BaseType::Double, &read_scalar(BaseType::Double, &WireScalar::Double(nan)).unwrap());
    assert_eq!(back, Ok(WireScalar::Double(nan)));
}

#[test]
fn boolean_nonzero_test_and_encoding() {
    assert_eq!(read_scalar(BaseType::Boolean, &WireScalar::Boolean(0)), Ok(Scalar::Boolean(false)));
    assert_eq!(read_scalar(BaseType::Boolean, &WireScalar::Boolean(1)), Ok(Scalar::Boolean(true)));
    assert_eq!(read_scalar(BaseType::Boolean, &WireScalar::Boolean(7)), Ok(Scalar::Boolean(true)));
    assert_eq!(write_scalar(BaseType::Boolean, &Scalar::Boolean(true)), Ok(WireScalar::Boolean(1)));
    assert_eq!(write_scalar(BaseType::Boolean, &Scalar::Boolean(false)), Ok(WireScalar::Boolean(0)));
}

#[test]
fn char_code_units() {
    assert_eq!(read_scalar(BaseType::Char, &WireScalar::Char(0x41)), Ok(Scalar::Char('A')));
    assert_eq!(read_scalar(BaseType::Char, &WireScalar::Char(0xE9)), Ok(Scalar::Char('é')));
    assert_eq!(read_scalar(BaseType::Char, &WireScalar::Char(0xD800)), Err(ConversionError::InvalidCharacter));
    assert_eq!(read_scalar(BaseType::Char, &WireScalar::Char(0xDFFF)), Err(ConversionError::InvalidCharacter));
    assert_eq!(write_scalar(BaseType::Char, &Scalar::Char('\u{FFFD}')), Ok(WireScalar::Char(0xFFFD)));
    assert_eq!(write_scalar(BaseType::Char, &Scalar::Char('\u{10000}')), Err(ConversionError::InvalidCharacter));
}

#[test]
fn text_requires_a_reference() {
    let t = SemanticType::Base(BaseType::Text);
    assert_eq!(from_java_static(t, &wire(WireScalar::Str("hé".to_string()))), Ok(single(Scalar::Text("hé".to_string()))));
    assert_eq!(from_java_static(t, &wire(WireScalar::Null)), Err(ConversionError::NullReference));
    assert_eq!(into_java_static(t, &single(Scalar::Text(String::new()))), Ok(wire(WireScalar::Str(String::new()))));
}

#[test]
fn objects_pass_through_with_null() {
    let t = SemanticType::Base(BaseType::Object);
    assert_eq!(from_java_static(t, &wire(WireScalar::Object(9))), Ok(single(Scalar::Object(Some(9)))));
    assert_eq!(from_java_static(t, &wire(WireScalar::Null)), Ok(single(Scalar::Object(None))));
    assert_eq!(into_java_static(t, &single(Scalar::Object(None))), Ok(wire(WireScalar::Null)));
}

#[test]
fn optional_null_is_absent_and_present_is_bare() {
    let t = SemanticType::Optional(BaseType::Text);
    assert_eq!(from_java_static(t, &wire(WireScalar::Null)), Ok(NativeValue::Optional(None)));
    assert_eq!(
        from_java_static(t, &wire(WireScalar::Str("a".to_string()))),
        Ok(NativeValue::Optional(Some(Scalar::Text("a".to_string()))))
    );
    assert_eq!(into_java_static(t, &NativeValue::Optional(None)), Ok(wire(WireScalar::Null)));
    let present = into_java_static(t, &NativeValue::Optional(Some(Scalar::Text("a".to_string()))));
    let bare = into_java_static(SemanticType::Base(BaseType::Text), &single(Scalar::Text("a".to_string())));
    assert_eq!(present, bare);
    assert_eq!(present, Ok(wire(WireScalar::Str("a".to_string()))));
}

#[test]
fn optional_of_primitive_is_unsupported() {
    let t = SemanticType::Optional(BaseType::Int);
    assert_eq!(lookup(t), Err(ConversionError::UnsupportedType));
    assert_eq!(from_java_static(t, &wire(WireScalar::Int(1))), Err(ConversionError::UnsupportedType));
    assert_eq!(into_java_static(t, &NativeValue::Optional(None)), Err(ConversionError::UnsupportedType));
}

#[test]
fn sequences_keep_order_and_count() {
    let t = SemanticType::Sequence(BaseType::Text);
    let xs = vec![Scalar::Text("x".to_string()), Scalar::Text("y".to_string()), Scalar::Text("z".to_string())];
    let w = into_java_static(t, &NativeValue::Sequence(xs.clone())).unwrap();
    assert_eq!(
        w,
        WireValue::ObjectArray(vec![
            WireScalar::Str("x".to_string()),
            WireScalar::Str("y".to_string()),
            WireScalar::Str("z".to_string()),
        ])
    );
    assert_eq!(from_java_static(t, &w), Ok(NativeValue::Sequence(xs)));
}

#[test]
fn empty_sequence_is_zero_length_array() {
    let t = SemanticType::Sequence(BaseType::Text);
    assert_eq!(into_java_static(t, &NativeValue::Sequence(vec![])), Ok(WireValue::ObjectArray(vec![])));
    assert_eq!(from_java_static(t, &WireValue::ObjectArray(vec![])), Ok(NativeValue::Sequence(vec![])));
    let p = SemanticType::Sequence(BaseType::Int);
    assert_eq!(into_java_static(p, &NativeValue::Sequence(vec![])), Ok(WireValue::PrimitiveArray(vec![])));
}

#[test]
fn primitive_sequences_use_bulk_arrays() {
    let t = SemanticType::Sequence(BaseType::Int);
    let rule = lookup(t).unwrap();
    assert_eq!(rule.boundary, BoundaryType::PrimitiveArray(BaseType::Int));
    assert_eq!(rule.forward, ForwardPolicy::BulkRegion);
    let w = WireValue::PrimitiveArray(vec![WireScalar::Int(3), WireScalar::Int(1), WireScalar::Int(2)]);
    let v = from_java_static(t, &w).unwrap();
    assert_eq!(v, NativeValue::Sequence(vec![Scalar::Int(3), Scalar::Int(1), Scalar::Int(2)]));
    assert_eq!(into_java_static(t, &v), Ok(w));
    let bools = SemanticType::Sequence(BaseType::Boolean);
    let w = WireValue::PrimitiveArray(vec![WireScalar::Boolean(1), WireScalar::Boolean(0)]);
    assert_eq!(from_java_static(bools, &w), Ok(NativeValue::Sequence(vec![Scalar::Boolean(true), Scalar::Boolean(false)])));
}

#[test]
fn sequence_failures() {
    let t = SemanticType::Sequence(BaseType::Text);
    assert_eq!(from_java_static(t, &wire(WireScalar::Null)), Err(ConversionError::NullReference));
    let with_null = WireValue::ObjectArray(vec![WireScalar::Str("a".to_string()), WireScalar::Null]);
    assert_eq!(from_java_static(t, &with_null), Err(ConversionError::NullReference));
    let chars = SemanticType::Sequence(BaseType::Char);
    let bad = WireValue::PrimitiveArray(vec![WireScalar::Char(0x61), WireScalar::Char(0xDC00)]);
    assert_eq!(from_java_static(chars, &bad), Err(ConversionError::InvalidCharacter));
    assert_eq!(from_java_static(t, &WireValue::PrimitiveArray(vec![])), Err(ConversionError::TypeMismatch));
    assert_eq!(lookup(SemanticType::Sequence(BaseType::Unit)), Err(ConversionError::UnsupportedType));
}

#[test]
fn mismatched_shapes_fail() {
    assert_eq!(read_scalar(BaseType::Int, &WireScalar::Long(1)), Err(ConversionError::TypeMismatch));
    assert_eq!(write_scalar(BaseType::Text, &Scalar::Int(1)), Err(ConversionError::TypeMismatch));
    assert_eq!(
        from_java_static(SemanticType::Base(BaseType::Int), &WireValue::PrimitiveArray(vec![])),
        Err(ConversionError::TypeMismatch)
    );
    assert_eq!(
        from_java_static(SemanticType::ContextHandle, &wire(WireScalar::Null)),
        Err(ConversionError::UnsupportedType)
    );
}

#[test]
fn error_classes() {
    assert_eq!(ConversionError::NullReference.jclass(), "java/lang/NullPointerException");
    assert_eq!(ConversionError::InvalidCharacter.jclass(), "java/lang/RuntimeException");
    assert_eq!(ConversionError::ArrayTooLong.exception_class(), "java/lang/RuntimeException");
    assert_eq!(ConversionError::TypeMismatch.message(), "value does not match the declared type");
}

#[test]
fn typed_faces() {
    assert_eq!(i32::from_java(&wire(WireScalar::Int(4))), Ok(4));
    assert_eq!(i64::from_java(&wire(WireScalar::Long(-4))), Ok(-4));
    assert_eq!(bool::from_java(&wire(WireScalar::Boolean(2))), Ok(true));
    assert_eq!(char::from_java(&wire(WireScalar::Char(0x7A))), Ok('z'));
    assert_eq!(String::from_java(&wire(WireScalar::Null)), Err(ConversionError::NullReference));
    assert_eq!(<Option<String>>::from_java(&wire(WireScalar::Null)), Ok(None));
    let arr = WireValue::ObjectArray(vec![WireScalar::Str("p".to_string()), WireScalar::Str("q".to_string())]);
    assert_eq!(<Vec<String>>::from_java(&arr), Ok(vec!["p".to_string(), "q".to_string()]));
    assert_eq!(().into_java(), Ok(wire(WireScalar::Void)));
    assert_eq!(5i32.into_java(), Ok(wire(WireScalar::Int(5))));
    assert_eq!(true.into_java(), Ok(wire(WireScalar::Boolean(1))));
    assert_eq!('\u{10400}'.into_java(), Err(ConversionError::InvalidCharacter));
    assert_eq!(Some("s".to_string()).into_java(), Ok(wire(WireScalar::Str("s".to_string()))));
    assert_eq!(vec!["a".to_string()].into_java(), Ok(WireValue::ObjectArray(vec![WireScalar::Str("a".to_string())])));
    assert_eq!(Vec::<String>::new().into_java(), Ok(WireValue::ObjectArray(vec![])));
}

#[test]
fn object_faces() {
    assert_eq!(<String as IntoJavaObject>::class_name(), "java/lang/String");
    assert_eq!(<Vec<String> as IntoJavaObject>::class_name(), "java/lang/String");
    assert_eq!("t".to_string().into_java_object(), Ok(wire(WireScalar::Str("t".to_string()))));
    assert_eq!(None::<String>.into_java_object(), Ok(wire(WireScalar::Null)));
    assert_eq!(Vec::<String>::new().into_java_object(), Ok(WireValue::ObjectArray(vec![])));
}
