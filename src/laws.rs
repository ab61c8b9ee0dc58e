//! Laws of the conversion registry, proved over the conversions' specifications.
use vstd::prelude::*;
use crate::model::{BaseType, NativeModel, Scalar, SemanticType, WireModel, WireScalar, is_primitive, is_reference};
use crate::registry::{ConversionError, rule_of};
use crate::convert::{decode_elems, decode_scalar, decode_value, encode_elems, encode_scalar, encode_value};

verus! {

/// The native scalar `x` is a value of base type `b`.
pub open spec fn scalar_has_type(b: BaseType, x: Scalar) -> bool {
    match b {
        BaseType::Byte => x is Byte,
        BaseType::Short => x is Short,
        BaseType::Int => x is Int,
        BaseType::Long => x is Long,
        BaseType::Float => x is Float,
        BaseType::Double => x is Double,
        BaseType::Boolean => x is Boolean,
        BaseType::Char => x is Char,
        BaseType::Text => x is Text,
        BaseType::Object => x is Object,
        BaseType::Unit => x is Unit,
    }
}

/// A code point that fits in one UTF-16 code unit.
pub open spec fn in_code_unit_range(x: Scalar) -> bool {
    x is Char ==> (x->Char_0 as u32) <= 0xFFFF
}

/// The boundary boolean in its canonical form, 0 or 1.
pub open spec fn is_canonical(w: WireScalar) -> bool {
    w is Boolean ==> w->Boolean_0 <= 1
}

proof fn lemma_char_code(c: char)
    requires
        (c as u32) <= 0xFFFF,
    ensures
        is_scalar_value_of(c),
        ((c as u32 as u16) as u32) == c as u32,
        ((c as u32 as u16) as u32) as char == c,
{
    vstd::utf8::char_u32_cast(c, c as u32);
    assert(vstd::utf8::is_scalar(c as u32)) by {
        vstd::utf8::char_is_scalar(c);
    }
}

spec fn is_scalar_value_of(c: char) -> bool {
    crate::convert::is_scalar_value(c as u32)
}

/// For every primitive rule, a native value taken to the boundary and back is unchanged
/// (for a code point: one that fits in a code unit).
pub proof fn lemma_primitive_native_round_trip(b: BaseType, x: Scalar)
    requires
        is_primitive(b),
        scalar_has_type(b, x),
        in_code_unit_range(x),
    ensures
        encode_value(SemanticType::Base(b), NativeModel::Single(x)) is Ok,
        decode_value(
            SemanticType::Base(b),
            encode_value(SemanticType::Base(b), NativeModel::Single(x))->Ok_0,
        ) == Ok::<NativeModel, ConversionError>(NativeModel::Single(x)),
{
    if let Scalar::Char(c) = x {
        lemma_char_code(c);
    }
    if let Scalar::Boolean(v) = x {
        assert(v == ((if v { 1u8 } else { 0u8 }) != 0));
    }
}

/// For every primitive rule, a boundary value that converts to a native value comes back
/// unchanged from it (a boolean: in its canonical form).
pub proof fn lemma_primitive_wire_round_trip(b: BaseType, w: WireScalar)
    requires
        is_primitive(b),
        decode_value(SemanticType::Base(b), WireModel::Scalar(w)) is Ok,
        is_canonical(w),
    ensures
        encode_value(
            SemanticType::Base(b),
            decode_value(SemanticType::Base(b), WireModel::Scalar(w))->Ok_0,
        ) == Ok::<WireModel, ConversionError>(WireModel::Scalar(w)),
{
    if let WireScalar::Char(u) = w {
        let c = (u as u32) as char;
        assert(crate::convert::is_scalar_value(u as u32));
        vstd::utf8::char_u32_cast(c, c as u32);
        assert((c as u32) == u as u32);
    }
}

/// The absent value crosses as the null reference, the null reference always reads as the
/// absent value (whatever the wrapped rule says of null), and a present value crosses
/// exactly as the bare value would.
pub proof fn lemma_optional_rule(b: BaseType, x: Scalar)
    requires
        is_reference(b),
    ensures
        encode_value(SemanticType::Optional(b), NativeModel::Optional(None))
            == Ok::<WireModel, ConversionError>(WireModel::Scalar(WireScalar::Null)),
        decode_value(SemanticType::Optional(b), WireModel::Scalar(WireScalar::Null))
            == Ok::<NativeModel, ConversionError>(NativeModel::Optional(None)),
        encode_value(SemanticType::Optional(b), NativeModel::Optional(Some(x)))
            == encode_value(SemanticType::Base(b), NativeModel::Single(x)),
{
}

proof fn lemma_encode_elems_pointwise(b: BaseType, xs: Seq<Scalar>)
    requires
        encode_elems(b, xs) is Ok,
    ensures
        encode_elems(b, xs)->Ok_0.len() == xs.len(),
        forall|i: int|
            0 <= i < xs.len() ==> encode_scalar(b, #[trigger] xs[i])
                == Ok::<WireScalar, ConversionError>(encode_elems(b, xs)->Ok_0[i]),
    decreases xs.len(),
{
    if xs.len() > 0 {
        lemma_encode_elems_pointwise(b, xs.drop_last());
        let ws = encode_elems(b, xs)->Ok_0;
        assert forall|i: int| 0 <= i < xs.len() implies encode_scalar(b, #[trigger] xs[i])
            == Ok::<WireScalar, ConversionError>(ws[i]) by {
            if i < xs.len() - 1 {
                assert(xs.drop_last()[i] == xs[i]);
            }
        }
    }
}

proof fn lemma_decode_elems_pointwise(b: BaseType, ws: Seq<WireScalar>)
    requires
        decode_elems(b, ws) is Ok,
    ensures
        decode_elems(b, ws)->Ok_0.len() == ws.len(),
        forall|i: int|
            0 <= i < ws.len() ==> decode_scalar(b, #[trigger] ws[i])
                == Ok::<Scalar, ConversionError>(decode_elems(b, ws)->Ok_0[i]),
    decreases ws.len(),
{
    if ws.len() > 0 {
        lemma_decode_elems_pointwise(b, ws.drop_last());
        let xs = decode_elems(b, ws)->Ok_0;
        assert forall|i: int| 0 <= i < ws.len() implies decode_scalar(b, #[trigger] ws[i])
            == Ok::<Scalar, ConversionError>(xs[i]) by {
            if i < ws.len() - 1 {
                assert(ws.drop_last()[i] == ws[i]);
            }
        }
    }
}

/// The elements of a boundary array, or `None` for a value that is no array.
pub open spec fn array_elems(w: WireModel) -> Option<Seq<WireScalar>> {
    match w {
        WireModel::ObjectArray(ws) => Some(ws),
        WireModel::PrimitiveArray(ws) => Some(ws),
        WireModel::Scalar(_) => None,
    }
}

/// A sequence crosses to the boundary as an array (never the null reference) with as
/// many elements, each the conversion of the element in the same place.
pub proof fn lemma_sequence_encoding_keeps_order(b: BaseType, xs: Seq<Scalar>)
    requires
        rule_of(SemanticType::Sequence(b)) is Some,
        encode_value(SemanticType::Sequence(b), NativeModel::Sequence(xs)) is Ok,
    ensures
        ({
            let w = encode_value(SemanticType::Sequence(b), NativeModel::Sequence(xs))->Ok_0;
            &&& array_elems(w) is Some
            &&& array_elems(w)->Some_0.len() == xs.len()
            &&& forall|i: int|
                0 <= i < xs.len() ==> encode_scalar(b, #[trigger] xs[i])
                    == Ok::<WireScalar, ConversionError>(array_elems(w)->Some_0[i])
        }),
{
    lemma_encode_elems_pointwise(b, xs);
}

/// A boundary array reads as a sequence with as many elements, each the conversion of
/// the element in the same place.
pub proof fn lemma_sequence_decoding_keeps_order(b: BaseType, w: WireModel)
    requires
        decode_value(SemanticType::Sequence(b), w) is Ok,
    ensures
        array_elems(w) is Some,
        ({
            let ws = array_elems(w)->Some_0;
            let xs = decode_value(SemanticType::Sequence(b), w)->Ok_0->Sequence_0;
            &&& decode_value(SemanticType::Sequence(b), w)->Ok_0 is Sequence
            &&& xs.len() == ws.len()
            &&& forall|i: int|
                0 <= i < ws.len() ==> decode_scalar(b, #[trigger] ws[i])
                    == Ok::<Scalar, ConversionError>(xs[i])
        }),
{
    match w {
        WireModel::ObjectArray(ws) => lemma_decode_elems_pointwise(b, ws),
        WireModel::PrimitiveArray(ws) => lemma_decode_elems_pointwise(b, ws),
        WireModel::Scalar(_) => {},
    }
}

/// The empty sequence crosses as a zero-length array, not the null reference, and a
/// zero-length array reads as the empty sequence.
pub proof fn lemma_empty_sequence(b: BaseType)
    requires
        rule_of(SemanticType::Sequence(b)) is Some,
    ensures
        encode_value(SemanticType::Sequence(b), NativeModel::Sequence(Seq::empty())) == (if is_primitive(b) {
            Ok::<WireModel, ConversionError>(WireModel::PrimitiveArray(Seq::empty()))
        } else {
            Ok::<WireModel, ConversionError>(WireModel::ObjectArray(Seq::empty()))
        }),
        decode_value(
            SemanticType::Sequence(b),
            if is_primitive(b) {
                WireModel::PrimitiveArray(Seq::empty())
            } else {
                WireModel::ObjectArray(Seq::empty())
            },
        ) == Ok::<NativeModel, ConversionError>(NativeModel::Sequence(Seq::empty())),
{
}

} // verus!
