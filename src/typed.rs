//! Typed faces of the registry: native Rust types that know their semantic type, and
//! convert from and to the boundary by its rule.
use vstd::prelude::*;
use crate::model::{BaseType, NativeModel, NativeValue, Scalar, SemanticType, WireModel, WireScalar, WireValue};
use crate::registry::ConversionError;
use crate::convert::{decode_value, encode_value, from_java_static, into_java_static, wire_result};

verus! {

/// A native type that a boundary value is converted to before it is fed to native code.
pub trait FromJava: Sized {
    /// The semantic type whose rule converts to this type.
    spec fn semantic_type() -> SemanticType;

    /// The native value that `x` is.
    spec fn native_model(x: Self) -> NativeModel;

    /// Converts a boundary value to this type.
    fn from_java(value: &WireValue) -> (r: Result<Self, ConversionError>)
        ensures
            match r {
                Ok(x) => decode_value(Self::semantic_type(), value@) == Ok::<NativeModel, ConversionError>(
                    Self::native_model(x),
                ),
                Err(e) => decode_value(Self::semantic_type(), value@) == Err::<NativeModel, ConversionError>(e),
            },
    ;
}

/// A native type that is converted to a boundary value when it is returned.
pub trait IntoJava: Sized {
    /// The semantic type whose rule converts this type.
    spec fn semantic_type() -> SemanticType;

    /// The native value that `x` is.
    spec fn native_model(x: Self) -> NativeModel;

    /// Converts this value to the boundary.
    fn into_java(self) -> (r: Result<WireValue, ConversionError>)
        ensures
            wire_result(r) == encode_value(Self::semantic_type(), Self::native_model(self)),
    ;
}

/// A boundary value that is an object reference: null, an object, a string or an array.
pub open spec fn is_reference_value(w: WireModel) -> bool {
    match w {
        WireModel::Scalar(s) => s is Null || s is Object || s is Str,
        _ => true,
    }
}

/// A native type that crosses the boundary as an object reference.
pub trait IntoJavaObject: IntoJava {
    /// The runtime class of the object; for a sequence, the class of its elements.
    spec fn class_spec() -> Seq<char>;

    /// The runtime class of the object.
    fn class_name() -> (r: String)
        ensures
            r@ == Self::class_spec(),
    ;

    /// Converts this value to an object reference, as [`IntoJava::into_java`] does.
    fn into_java_object(self) -> (r: Result<WireValue, ConversionError>)
        ensures
            wire_result(r) == encode_value(Self::semantic_type(), Self::native_model(self)),
            r is Ok ==> is_reference_value(r->Ok_0@),
    ;
}

/// The native sequence of a list of texts.
pub open spec fn texts(v: Seq<String>) -> Seq<Scalar> {
    v.map_values(|s: String| Scalar::Text(s))
}

impl FromJava for i32 {
    open spec fn semantic_type() -> SemanticType {
        SemanticType::Base(BaseType::Int)
    }

    open spec fn native_model(x: i32) -> NativeModel {
        NativeModel::Single(Scalar::Int(x))
    }

    fn from_java(value: &WireValue) -> (r: Result<i32, ConversionError>) {
        match from_java_static(SemanticType::Base(BaseType::Int), value) {
            Ok(NativeValue::Single(Scalar::Int(x))) => Ok(x),
            Ok(_) => Err(ConversionError::TypeMismatch),
            Err(e) => Err(e),
        }
    }
}

impl FromJava for i64 {
    open spec fn semantic_type() -> SemanticType {
        SemanticType::Base(BaseType::Long)
    }

    open spec fn native_model(x: i64) -> NativeModel {
        NativeModel::Single(Scalar::Long(x))
    }

    fn from_java(value: &WireValue) -> (r: Result<i64, ConversionError>) {
        match from_java_static(SemanticType::Base(BaseType::Long), value) {
            Ok(NativeValue::Single(Scalar::Long(x))) => Ok(x),
            Ok(_) => Err(ConversionError::TypeMismatch),
            Err(e) => Err(e),
        }
    }
}

impl FromJava for bool {
    open spec fn semantic_type() -> SemanticType {
        SemanticType::Base(BaseType::Boolean)
    }

    open spec fn native_model(x: bool) -> NativeModel {
        NativeModel::Single(Scalar::Boolean(x))
    }

    fn from_java(value: &WireValue) -> (r: Result<bool, ConversionError>) {
        match from_java_static(SemanticType::Base(BaseType::Boolean), value) {
            Ok(NativeValue::Single(Scalar::Boolean(x))) => Ok(x),
            Ok(_) => Err(ConversionError::TypeMismatch),
            Err(e) => Err(e),
        }
    }
}

impl FromJava for char {
    open spec fn semantic_type() -> SemanticType {
        SemanticType::Base(BaseType::Char)
    }

    open spec fn native_model(x: char) -> NativeModel {
        NativeModel::Single(Scalar::Char(x))
    }

    fn from_java(value: &WireValue) -> (r: Result<char, ConversionError>) {
        match from_java_static(SemanticType::Base(BaseType::Char), value) {
            Ok(NativeValue::Single(Scalar::Char(x))) => Ok(x),
            Ok(_) => Err(ConversionError::TypeMismatch),
            Err(e) => Err(e),
        }
    }
}

impl FromJava for String {
    open spec fn semantic_type() -> SemanticType {
        SemanticType::Base(BaseType::Text)
    }

    open spec fn native_model(x: String) -> NativeModel {
        NativeModel::Single(Scalar::Text(x))
    }

    fn from_java(value: &WireValue) -> (r: Result<String, ConversionError>) {
        match from_java_static(SemanticType::Base(BaseType::Text), value) {
            Ok(NativeValue::Single(Scalar::Text(x))) => Ok(x),
            Ok(_) => Err(ConversionError::TypeMismatch),
            Err(e) => Err(e),
        }
    }
}

impl FromJava for Option<String> {
    open spec fn semantic_type() -> SemanticType {
        SemanticType::Optional(BaseType::Text)
    }

    open spec fn native_model(x: Option<String>) -> NativeModel {
        match x {
            Some(s) => NativeModel::Optional(Some(Scalar::Text(s))),
            None => NativeModel::Optional(None),
        }
    }

    fn from_java(value: &WireValue) -> (r: Result<Option<String>, ConversionError>) {
        match from_java_static(SemanticType::Optional(BaseType::Text), value) {
            Ok(NativeValue::Optional(None)) => Ok(None),
            Ok(NativeValue::Optional(Some(Scalar::Text(x)))) => Ok(Some(x)),
            Ok(_) => Err(ConversionError::TypeMismatch),
            Err(e) => Err(e),
        }
    }
}

impl FromJava for Vec<String> {
    open spec fn semantic_type() -> SemanticType {
        SemanticType::Sequence(BaseType::Text)
    }

    open spec fn native_model(x: Vec<String>) -> NativeModel {
        NativeModel::Sequence(texts(x@))
    }

    fn from_java(value: &WireValue) -> (r: Result<Vec<String>, ConversionError>) {
        let xs = match from_java_static(SemanticType::Sequence(BaseType::Text), value) {
            Ok(NativeValue::Sequence(xs)) => xs,
            Ok(_) => return Err(ConversionError::TypeMismatch),
            Err(e) => return Err(e),
        };
        proof {
            crate::laws::lemma_sequence_decoding_keeps_order(BaseType::Text, value@);
            let ws = crate::laws::array_elems(value@)->Some_0;
            assert forall|k: int| 0 <= k < xs@.len() implies (#[trigger] xs@[k]) is Text by {
                assert(crate::convert::decode_scalar(BaseType::Text, ws[k]) == Ok::<Scalar, ConversionError>(xs@[k]));
            }
        }
        let mut out: Vec<String> = Vec::new();
        let mut i: usize = 0;
        while i < xs.len()
            invariant
                i <= xs@.len(),
                forall|k: int| 0 <= k < xs@.len() ==> (#[trigger] xs@[k]) is Text,
                out@.len() == i,
                forall|k: int| 0 <= k < i ==> Scalar::Text(#[trigger] out@[k]) == xs@[k],
            decreases xs@.len() - i,
        {
            match &xs[i] {
                Scalar::Text(s) => out.push(s.clone()),
                _ => {
                    return Err(ConversionError::TypeMismatch);
                },
            }
            i = i + 1;
        }
        assert(texts(out@) =~= xs@);
        Ok(out)
    }
}

impl IntoJava for () {
    open spec fn semantic_type() -> SemanticType {
        SemanticType::Base(BaseType::Unit)
    }

    open spec fn native_model(x: ()) -> NativeModel {
        NativeModel::Single(Scalar::Unit)
    }

    fn into_java(self) -> (r: Result<WireValue, ConversionError>) {
        into_java_static(SemanticType::Base(BaseType::Unit), &NativeValue::Single(Scalar::Unit))
    }
}

impl IntoJava for i32 {
    open spec fn semantic_type() -> SemanticType {
        SemanticType::Base(BaseType::Int)
    }

    open spec fn native_model(x: i32) -> NativeModel {
        NativeModel::Single(Scalar::Int(x))
    }

    fn into_java(self) -> (r: Result<WireValue, ConversionError>) {
        into_java_static(SemanticType::Base(BaseType::Int), &NativeValue::Single(Scalar::Int(self)))
    }
}

impl IntoJava for i64 {
    open spec fn semantic_type() -> SemanticType {
        SemanticType::Base(BaseType::Long)
    }

    open spec fn native_model(x: i64) -> NativeModel {
        NativeModel::Single(Scalar::Long(x))
    }

    fn into_java(self) -> (r: Result<WireValue, ConversionError>) {
        into_java_static(SemanticType::Base(BaseType::Long), &NativeValue::Single(Scalar::Long(self)))
    }
}

impl IntoJava for bool {
    open spec fn semantic_type() -> SemanticType {
        SemanticType::Base(BaseType::Boolean)
    }

    open spec fn native_model(x: bool) -> NativeModel {
        NativeModel::Single(Scalar::Boolean(x))
    }

    fn into_java(self) -> (r: Result<WireValue, ConversionError>) {
        into_java_static(SemanticType::Base(BaseType::Boolean), &NativeValue::Single(Scalar::Boolean(self)))
    }
}

impl IntoJava for char {
    open spec fn semantic_type() -> SemanticType {
        SemanticType::Base(BaseType::Char)
    }

    open spec fn native_model(x: char) -> NativeModel {
        NativeModel::Single(Scalar::Char(x))
    }

    fn into_java(self) -> (r: Result<WireValue, ConversionError>) {
        into_java_static(SemanticType::Base(BaseType::Char), &NativeValue::Single(Scalar::Char(self)))
    }
}

impl IntoJava for String {
    open spec fn semantic_type() -> SemanticType {
        SemanticType::Base(BaseType::Text)
    }

    open spec fn native_model(x: String) -> NativeModel {
        NativeModel::Single(Scalar::Text(x))
    }

    fn into_java(self) -> (r: Result<WireValue, ConversionError>) {
        into_java_static(SemanticType::Base(BaseType::Text), &NativeValue::Single(Scalar::Text(self)))
    }
}

impl IntoJava for Option<String> {
    open spec fn semantic_type() -> SemanticType {
        SemanticType::Optional(BaseType::Text)
    }

    open spec fn native_model(x: Option<String>) -> NativeModel {
        match x {
            Some(s) => NativeModel::Optional(Some(Scalar::Text(s))),
            None => NativeModel::Optional(None),
        }
    }

    fn into_java(self) -> (r: Result<WireValue, ConversionError>) {
        let v = match self {
            Some(s) => NativeValue::Optional(Some(Scalar::Text(s))),
            None => NativeValue::Optional(None),
        };
        into_java_static(SemanticType::Optional(BaseType::Text), &v)
    }
}

impl IntoJava for Vec<String> {
    open spec fn semantic_type() -> SemanticType {
        SemanticType::Sequence(BaseType::Text)
    }

    open spec fn native_model(x: Vec<String>) -> NativeModel {
        NativeModel::Sequence(texts(x@))
    }

    fn into_java(self) -> (r: Result<WireValue, ConversionError>) {
        let mut xs: Vec<Scalar> = Vec::new();
        let mut i: usize = 0;
        while i < self.len()
            invariant
                i <= self@.len(),
                xs@.len() == i,
                forall|k: int| 0 <= k < i ==> #[trigger] xs@[k] == Scalar::Text(self@[k]),
            decreases self@.len() - i,
        {
            xs.push(Scalar::Text(self[i].clone()));
            i = i + 1;
        }
        assert(xs@ =~= texts(self@));
        into_java_static(SemanticType::Sequence(BaseType::Text), &NativeValue::Sequence(xs))
    }
}

impl IntoJavaObject for String {
    open spec fn class_spec() -> Seq<char> {
        "java/lang/String"@
    }

    fn class_name() -> (r: String) {
        "java/lang/String".to_owned()
    }

    fn into_java_object(self) -> (r: Result<WireValue, ConversionError>) {
        self.into_java()
    }
}

impl IntoJavaObject for Option<String> {
    open spec fn class_spec() -> Seq<char> {
        "java/lang/String"@
    }

    fn class_name() -> (r: String) {
        "java/lang/String".to_owned()
    }

    fn into_java_object(self) -> (r: Result<WireValue, ConversionError>) {
        self.into_java()
    }
}

impl IntoJavaObject for Vec<String> {
    open spec fn class_spec() -> Seq<char> {
        "java/lang/String"@
    }

    fn class_name() -> (r: String) {
        "java/lang/String".to_owned()
    }

    fn into_java_object(self) -> (r: Result<WireValue, ConversionError>) {
        self.into_java()
    }
}

} // verus!
