//! The registry's conversions: forward (boundary to native) and backward (native to
//! boundary), for base types, single-level optionals and sequences.
use vstd::prelude::*;
use crate::model::{
    BaseType, NativeModel, NativeValue, Scalar, SemanticType, WireModel, WireScalar, WireValue,
    base_is_primitive, is_primitive,
};
use crate::registry::{ConversionError, rule_of};

verus! {

/// The largest length of a boundary array.
pub const MAX_ARRAY_LEN: usize = 0x7fff_ffff;

/// A code point that is a Unicode scalar value.
pub open spec fn is_scalar_value(u: u32) -> bool {
    u < 0xD800 || (0xDFFF < u && u <= 0x10FFFF)
}

/// Relies on `char::from_u32`: `Some` exactly for a Unicode scalar value, holding it.
#[verifier::external_body]
fn char_from_code(u: u32) -> (r: Option<char>)
    ensures
        r == (if is_scalar_value(u) { Some(u as char) } else { None::<char> }),
{
    char::from_u32(u)
}

/// Forward conversion of one boundary scalar under the rule of `b`.
pub open spec fn decode_scalar(b: BaseType, w: WireScalar) -> Result<Scalar, ConversionError> {
    let mismatch = Err(ConversionError::TypeMismatch);
    match b {
        BaseType::Byte => match w {
            WireScalar::Byte(x) => Ok(Scalar::Byte(x)),
            _ => mismatch,
        },
        BaseType::Short => match w {
            WireScalar::Short(x) => Ok(Scalar::Short(x)),
            _ => mismatch,
        },
        BaseType::Int => match w {
            WireScalar::Int(x) => Ok(Scalar::Int(x)),
            _ => mismatch,
        },
        BaseType::Long => match w {
            WireScalar::Long(x) => Ok(Scalar::Long(x)),
            _ => mismatch,
        },
        BaseType::Float => match w {
            WireScalar::Float(x) => Ok(Scalar::Float(x)),
            _ => mismatch,
        },
        BaseType::Double => match w {
            WireScalar::Double(x) => Ok(Scalar::Double(x)),
            _ => mismatch,
        },
        BaseType::Boolean => match w {
            WireScalar::Boolean(x) => Ok(Scalar::Boolean(x != 0)),
            _ => mismatch,
        },
        BaseType::Char => match w {
            WireScalar::Char(u) => if is_scalar_value(u as u32) {
                Ok(Scalar::Char(u as char))
            } else {
                Err(ConversionError::InvalidCharacter)
            },
            _ => mismatch,
        },
        BaseType::Text => match w {
            WireScalar::Str(s) => Ok(Scalar::Text(s)),
            WireScalar::Null => Err(ConversionError::NullReference),
            _ => mismatch,
        },
        BaseType::Object => match w {
            WireScalar::Object(h) => Ok(Scalar::Object(Some(h))),
            WireScalar::Null => Ok(Scalar::Object(None)),
            _ => mismatch,
        },
        BaseType::Unit => match w {
            WireScalar::Void => Ok(Scalar::Unit),
            _ => mismatch,
        },
    }
}

/// Backward conversion of one native scalar under the rule of `b`.
pub open spec fn encode_scalar(b: BaseType, x: Scalar) -> Result<WireScalar, ConversionError> {
    let mismatch = Err(ConversionError::TypeMismatch);
    match b {
        BaseType::Byte => match x {
            Scalar::Byte(v) => Ok(WireScalar::Byte(v)),
            _ => mismatch,
        },
        BaseType::Short => match x {
            Scalar::Short(v) => Ok(WireScalar::Short(v)),
            _ => mismatch,
        },
        BaseType::Int => match x {
            Scalar::Int(v) => Ok(WireScalar::Int(v)),
            _ => mismatch,
        },
        BaseType::Long => match x {
            Scalar::Long(v) => Ok(WireScalar::Long(v)),
            _ => mismatch,
        },
        BaseType::Float => match x {
            Scalar::Float(v) => Ok(WireScalar::Float(v)),
            _ => mismatch,
        },
        BaseType::Double => match x {
            Scalar::Double(v) => Ok(WireScalar::Double(v)),
            _ => mismatch,
        },
        BaseType::Boolean => match x {
            Scalar::Boolean(v) => Ok(WireScalar::Boolean(if v { 1u8 } else { 0u8 })),
            _ => mismatch,
        },
        BaseType::Char => match x {
            Scalar::Char(c) => if (c as u32) <= 0xFFFF {
                Ok(WireScalar::Char(c as u32 as u16))
            } else {
                Err(ConversionError::InvalidCharacter)
            },
            _ => mismatch,
        },
        BaseType::Text => match x {
            Scalar::Text(s) => Ok(WireScalar::Str(s)),
            _ => mismatch,
        },
        BaseType::Object => match x {
            Scalar::Object(Some(h)) => Ok(WireScalar::Object(h)),
            Scalar::Object(None) => Ok(WireScalar::Null),
            _ => mismatch,
        },
        BaseType::Unit => match x {
            Scalar::Unit => Ok(WireScalar::Void),
            _ => mismatch,
        },
    }
}

/// Forward conversion of array elements in order; the first failure is the result.
pub open spec fn decode_elems(b: BaseType, ws: Seq<WireScalar>) -> Result<Seq<Scalar>, ConversionError>
    decreases ws.len(),
{
    if ws.len() == 0 {
        Ok(Seq::empty())
    } else {
        match decode_elems(b, ws.drop_last()) {
            Err(e) => Err(e),
            Ok(xs) => match decode_scalar(b, ws.last()) {
                Err(e) => Err(e),
                Ok(x) => Ok(xs.push(x)),
            },
        }
    }
}

/// Backward conversion of sequence elements in order; the first failure is the result.
pub open spec fn encode_elems(b: BaseType, xs: Seq<Scalar>) -> Result<Seq<WireScalar>, ConversionError>
    decreases xs.len(),
{
    if xs.len() == 0 {
        Ok(Seq::empty())
    } else {
        match encode_elems(b, xs.drop_last()) {
            Err(e) => Err(e),
            Ok(ws) => match encode_scalar(b, xs.last()) {
                Err(e) => Err(e),
                Ok(w) => Ok(ws.push(w)),
            },
        }
    }
}

/// Forward conversion of a boundary value to the native type `t`.
pub open spec fn decode_value(t: SemanticType, w: WireModel) -> Result<NativeModel, ConversionError> {
    let mismatch = Err(ConversionError::TypeMismatch);
    if rule_of(t) is None {
        Err(ConversionError::UnsupportedType)
    } else {
        match t {
            SemanticType::Base(b) => match w {
                WireModel::Scalar(s) => match decode_scalar(b, s) {
                    Ok(x) => Ok(NativeModel::Single(x)),
                    Err(e) => Err(e),
                },
                _ => mismatch,
            },
            SemanticType::Optional(b) => match w {
                WireModel::Scalar(WireScalar::Null) => Ok(NativeModel::Optional(None)),
                WireModel::Scalar(s) => match decode_scalar(b, s) {
                    Ok(x) => Ok(NativeModel::Optional(Some(x))),
                    Err(e) => Err(e),
                },
                _ => mismatch,
            },
            SemanticType::Sequence(b) => match w {
                WireModel::Scalar(WireScalar::Null) => Err(ConversionError::NullReference),
                WireModel::PrimitiveArray(ws) => if is_primitive(b) {
                    match decode_elems(b, ws) {
                        Ok(xs) => Ok(NativeModel::Sequence(xs)),
                        Err(e) => Err(e),
                    }
                } else {
                    mismatch
                },
                WireModel::ObjectArray(ws) => if !is_primitive(b) {
                    match decode_elems(b, ws) {
                        Ok(xs) => Ok(NativeModel::Sequence(xs)),
                        Err(e) => Err(e),
                    }
                } else {
                    mismatch
                },
                _ => mismatch,
            },
            _ => Err(ConversionError::UnsupportedType),
        }
    }
}

/// Backward conversion of a native value of type `t` to the boundary.
pub open spec fn encode_value(t: SemanticType, v: NativeModel) -> Result<WireModel, ConversionError> {
    let mismatch = Err(ConversionError::TypeMismatch);
    if rule_of(t) is None {
        Err(ConversionError::UnsupportedType)
    } else {
        match t {
            SemanticType::Base(b) => match v {
                NativeModel::Single(x) => match encode_scalar(b, x) {
                    Ok(w) => Ok(WireModel::Scalar(w)),
                    Err(e) => Err(e),
                },
                _ => mismatch,
            },
            SemanticType::Optional(b) => match v {
                NativeModel::Optional(None) => Ok(WireModel::Scalar(WireScalar::Null)),
                NativeModel::Optional(Some(x)) => match encode_scalar(b, x) {
                    Ok(w) => Ok(WireModel::Scalar(w)),
                    Err(e) => Err(e),
                },
                _ => mismatch,
            },
            SemanticType::Sequence(b) => match v {
                NativeModel::Sequence(xs) => if xs.len() > MAX_ARRAY_LEN {
                    Err(ConversionError::ArrayTooLong)
                } else {
                    match encode_elems(b, xs) {
                        Ok(ws) => if is_primitive(b) {
                            Ok(WireModel::PrimitiveArray(ws))
                        } else {
                            Ok(WireModel::ObjectArray(ws))
                        },
                        Err(e) => Err(e),
                    }
                },
                _ => mismatch,
            },
            _ => Err(ConversionError::UnsupportedType),
        }
    }
}

/// The view of a native conversion result.
pub open spec fn native_result(r: Result<NativeValue, ConversionError>) -> Result<NativeModel, ConversionError> {
    match r {
        Ok(v) => Ok(v@),
        Err(e) => Err(e),
    }
}

/// The view of a boundary conversion result.
pub open spec fn wire_result(r: Result<WireValue, ConversionError>) -> Result<WireModel, ConversionError> {
    match r {
        Ok(w) => Ok(w@),
        Err(e) => Err(e),
    }
}

} // verus!

verus! {

proof fn lemma_decode_elems_err_extends(b: BaseType, ws: Seq<WireScalar>, k: int, e: ConversionError)
    requires
        0 <= k <= ws.len(),
        decode_elems(b, ws.subrange(0, k)) == Err::<Seq<Scalar>, ConversionError>(e),
    ensures
        decode_elems(b, ws) == Err::<Seq<Scalar>, ConversionError>(e),
    decreases ws.len() - k,
{
    if k == ws.len() {
        assert(ws.subrange(0, k) =~= ws);
    } else {
        assert(ws.subrange(0, k + 1).drop_last() =~= ws.subrange(0, k));
        lemma_decode_elems_err_extends(b, ws, k + 1, e);
    }
}

proof fn lemma_encode_elems_err_extends(b: BaseType, xs: Seq<Scalar>, k: int, e: ConversionError)
    requires
        0 <= k <= xs.len(),
        encode_elems(b, xs.subrange(0, k)) == Err::<Seq<WireScalar>, ConversionError>(e),
    ensures
        encode_elems(b, xs) == Err::<Seq<WireScalar>, ConversionError>(e),
    decreases xs.len() - k,
{
    if k == xs.len() {
        assert(xs.subrange(0, k) =~= xs);
    } else {
        assert(xs.subrange(0, k + 1).drop_last() =~= xs.subrange(0, k));
        lemma_encode_elems_err_extends(b, xs, k + 1, e);
    }
}

/// Forward conversion of one boundary scalar.
pub fn read_scalar(b: BaseType, w: &WireScalar) -> (r: Result<Scalar, ConversionError>)
    ensures
        r == decode_scalar(b, *w),
{
    let mismatch = Err(ConversionError::TypeMismatch);
    match b {
        BaseType::Byte => match w {
            WireScalar::Byte(x) => Ok(Scalar::Byte(*x)),
            _ => mismatch,
        },
        BaseType::Short => match w {
            WireScalar::Short(x) => Ok(Scalar::Short(*x)),
            _ => mismatch,
        },
        BaseType::Int => match w {
            WireScalar::Int(x) => Ok(Scalar::Int(*x)),
            _ => mismatch,
        },
        BaseType::Long => match w {
            WireScalar::Long(x) => Ok(Scalar::Long(*x)),
            _ => mismatch,
        },
        BaseType::Float => match w {
            WireScalar::Float(x) => Ok(Scalar::Float(*x)),
            _ => mismatch,
        },
        BaseType::Double => match w {
            WireScalar::Double(x) => Ok(Scalar::Double(*x)),
            _ => mismatch,
        },
        BaseType::Boolean => match w {
            WireScalar::Boolean(x) => Ok(Scalar::Boolean(*x != 0)),
            _ => mismatch,
        },
        BaseType::Char => match w {
            WireScalar::Char(u) => match char_from_code(*u as u32) {
                Some(c) => Ok(Scalar::Char(c)),
                None => Err(ConversionError::InvalidCharacter),
            },
            _ => mismatch,
        },
        BaseType::Text => match w {
            WireScalar::Str(s) => Ok(Scalar::Text(s.clone())),
            WireScalar::Null => Err(ConversionError::NullReference),
            _ => mismatch,
        },
        BaseType::Object => match w {
            WireScalar::Object(h) => Ok(Scalar::Object(Some(*h))),
            WireScalar::Null => Ok(Scalar::Object(None)),
            _ => mismatch,
        },
        BaseType::Unit => match w {
            WireScalar::Void => Ok(Scalar::Unit),
            _ => mismatch,
        },
    }
}

/// Backward conversion of one native scalar.
pub fn write_scalar(b: BaseType, x: &Scalar) -> (r: Result<WireScalar, ConversionError>)
    ensures
        r == encode_scalar(b, *x),
{
    let mismatch = Err(ConversionError::TypeMismatch);
    match b {
        BaseType::Byte => match x {
            Scalar::Byte(v) => Ok(WireScalar::Byte(*v)),
            _ => mismatch,
        },
        BaseType::Short => match x {
            Scalar::Short(v) => Ok(WireScalar::Short(*v)),
            _ => mismatch,
        },
        BaseType::Int => match x {
            Scalar::Int(v) => Ok(WireScalar::Int(*v)),
            _ => mismatch,
        },
        BaseType::Long => match x {
            Scalar::Long(v) => Ok(WireScalar::Long(*v)),
            _ => mismatch,
        },
        BaseType::Float => match x {
            Scalar::Float(v) => Ok(WireScalar::Float(*v)),
            _ => mismatch,
        },
        BaseType::Double => match x {
            Scalar::Double(v) => Ok(WireScalar::Double(*v)),
            _ => mismatch,
        },
        BaseType::Boolean => match x {
            Scalar::Boolean(v) => Ok(WireScalar::Boolean(if *v { 1u8 } else { 0u8 })),
            _ => mismatch,
        },
        BaseType::Char => match x {
            Scalar::Char(c) => {
                let u = *c as u32;
                if u <= 0xFFFF {
                    Ok(WireScalar::Char(u as u16))
                } else {
                    Err(ConversionError::InvalidCharacter)
                }
            },
            _ => mismatch,
        },
        BaseType::Text => match x {
            Scalar::Text(s) => Ok(WireScalar::Str(s.clone())),
            _ => mismatch,
        },
        BaseType::Object => match x {
            Scalar::Object(Some(h)) => Ok(WireScalar::Object(*h)),
            Scalar::Object(None) => Ok(WireScalar::Null),
            _ => mismatch,
        },
        BaseType::Unit => match x {
            Scalar::Unit => Ok(WireScalar::Void),
            _ => mismatch,
        },
    }
}

/// Forward conversion of the elements of a boundary array, in order.
fn read_elems(b: BaseType, ws: &Vec<WireScalar>) -> (r: Result<Vec<Scalar>, ConversionError>)
    ensures
        match r {
            Ok(xs) => decode_elems(b, ws@) == Ok::<Seq<Scalar>, ConversionError>(xs@),
            Err(e) => decode_elems(b, ws@) == Err::<Seq<Scalar>, ConversionError>(e),
        },
{
    let mut out: Vec<Scalar> = Vec::new();
    let mut i: usize = 0;
    while i < ws.len()
        invariant
            i <= ws@.len(),
            decode_elems(b, ws@.subrange(0, i as int)) == Ok::<Seq<Scalar>, ConversionError>(out@),
        decreases ws@.len() - i,
    {
        proof {
            assert(ws@.subrange(0, i + 1).drop_last() =~= ws@.subrange(0, i as int));
            assert(ws@.subrange(0, i + 1).last() == ws@[i as int]);
        }
        match read_scalar(b, &ws[i]) {
            Ok(x) => {
                out.push(x);
            },
            Err(e) => {
                proof {
                    lemma_decode_elems_err_extends(b, ws@, i + 1, e);
                }
                return Err(e);
            },
        }
        i = i + 1;
    }
    assert(ws@.subrange(0, i as int) =~= ws@);
    Ok(out)
}

/// Backward conversion of the elements of a sequence, in order.
fn write_elems(b: BaseType, xs: &Vec<Scalar>) -> (r: Result<Vec<WireScalar>, ConversionError>)
    ensures
        match r {
            Ok(ws) => encode_elems(b, xs@) == Ok::<Seq<WireScalar>, ConversionError>(ws@),
            Err(e) => encode_elems(b, xs@) == Err::<Seq<WireScalar>, ConversionError>(e),
        },
{
    let mut out: Vec<WireScalar> = Vec::new();
    let mut i: usize = 0;
    while i < xs.len()
        invariant
            i <= xs@.len(),
            encode_elems(b, xs@.subrange(0, i as int)) == Ok::<Seq<WireScalar>, ConversionError>(out@),
        decreases xs@.len() - i,
    {
        proof {
            assert(xs@.subrange(0, i + 1).drop_last() =~= xs@.subrange(0, i as int));
            assert(xs@.subrange(0, i + 1).last() == xs@[i as int]);
        }
        match write_scalar(b, &xs[i]) {
            Ok(w) => {
                out.push(w);
            },
            Err(e) => {
                proof {
                    lemma_encode_elems_err_extends(b, xs@, i + 1, e);
                }
                return Err(e);
            },
        }
        i = i + 1;
    }
    assert(xs@.subrange(0, i as int) =~= xs@);
    Ok(out)
}

/// Forward conversion of a boundary value to the native type `t`, by the registry's rule
/// for `t`: the step that the synthesized prologue performs for each ordinary parameter.
pub fn from_java_static(t: SemanticType, w: &WireValue) -> (r: Result<NativeValue, ConversionError>)
    ensures
        native_result(r) == decode_value(t, w@),
{
    let mismatch = Err(ConversionError::TypeMismatch);
    match t {
        SemanticType::Base(b) => match w {
            WireValue::Scalar(s) => match read_scalar(b, s) {
                Ok(x) => Ok(NativeValue::Single(x)),
                Err(e) => Err(e),
            },
            _ => mismatch,
        },
        SemanticType::Optional(b) => {
            if !crate::model::base_is_reference(b) {
                return Err(ConversionError::UnsupportedType);
            }
            match w {
                WireValue::Scalar(WireScalar::Null) => Ok(NativeValue::Optional(None)),
                WireValue::Scalar(s) => match read_scalar(b, s) {
                    Ok(x) => Ok(NativeValue::Optional(Some(x))),
                    Err(e) => Err(e),
                },
                _ => mismatch,
            }
        },
        SemanticType::Sequence(b) => {
            let primitive = base_is_primitive(b);
            if !primitive && !crate::model::base_is_reference(b) {
                return Err(ConversionError::UnsupportedType);
            }
            match w {
                WireValue::Scalar(WireScalar::Null) => Err(ConversionError::NullReference),
                WireValue::PrimitiveArray(ws) => {
                    if primitive {
                        match read_elems(b, ws) {
                            Ok(xs) => Ok(NativeValue::Sequence(xs)),
                            Err(e) => Err(e),
                        }
                    } else {
                        mismatch
                    }
                },
                WireValue::ObjectArray(ws) => {
                    if !primitive {
                        match read_elems(b, ws) {
                            Ok(xs) => Ok(NativeValue::Sequence(xs)),
                            Err(e) => Err(e),
                        }
                    } else {
                        mismatch
                    }
                },
                _ => mismatch,
            }
        },
        _ => Err(ConversionError::UnsupportedType),
    }
}

/// Backward conversion of a native value of type `t` to the boundary, by the registry's
/// rule for `t`.
pub fn into_java_static(t: SemanticType, v: &NativeValue) -> (r: Result<WireValue, ConversionError>)
    ensures
        wire_result(r) == encode_value(t, v@),
{
    let mismatch = Err(ConversionError::TypeMismatch);
    match t {
        SemanticType::Base(b) => match v {
            NativeValue::Single(x) => match write_scalar(b, x) {
                Ok(w) => Ok(WireValue::Scalar(w)),
                Err(e) => Err(e),
            },
            _ => mismatch,
        },
        SemanticType::Optional(b) => {
            if !crate::model::base_is_reference(b) {
                return Err(ConversionError::UnsupportedType);
            }
            match v {
                NativeValue::Optional(None) => Ok(WireValue::Scalar(WireScalar::Null)),
                NativeValue::Optional(Some(x)) => match write_scalar(b, x) {
                    Ok(w) => Ok(WireValue::Scalar(w)),
                    Err(e) => Err(e),
                },
                _ => mismatch,
            }
        },
        SemanticType::Sequence(b) => {
            let primitive = base_is_primitive(b);
            if !primitive && !crate::model::base_is_reference(b) {
                return Err(ConversionError::UnsupportedType);
            }
            match v {
                NativeValue::Sequence(xs) => {
                    if xs.len() > MAX_ARRAY_LEN {
                        return Err(ConversionError::ArrayTooLong);
                    }
                    match write_elems(b, xs) {
                        Ok(ws) => if primitive {
                            Ok(WireValue::PrimitiveArray(ws))
                        } else {
                            Ok(WireValue::ObjectArray(ws))
                        },
                        Err(e) => Err(e),
                    }
                },
                _ => mismatch,
            }
        },
        _ => Err(ConversionError::UnsupportedType),
    }
}

} // verus!
