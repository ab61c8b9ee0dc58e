//! The data model: semantic native types, boundary (wire) types, and the values of each.
//!
//! Floating-point values are carried by their bit patterns, so that a float crosses the
//! boundary unchanged without the library computing with it.
use vstd::prelude::*;

verus! {

/// A native type that a single conversion rule handles.
#[derive(Clone, Copy, Debug, PartialEq, Eq, Structural)]
pub enum BaseType {
    Byte,
    Short,
    Int,
    Long,
    Float,
    Double,
    Boolean,
    Char,
    Text,
    Object,
    Unit,
}

/// The semantic type of a parameter or result, as the descriptor builder recognises it.
/// Composites wrap a base type only: nesting depth is at most one.
#[derive(Clone, Copy, Debug, PartialEq, Eq, Structural)]
pub enum SemanticType {
    Base(BaseType),
    Optional(BaseType),
    Sequence(BaseType),
    /// The per-call context handle of the foreign runtime.
    ContextHandle,
    /// The handle of the class that the call originates from.
    ClassHandle,
    /// A type no rule can describe (unknown, or composites nested too deep).
    Unsupported,
}

/// A type of the boundary's calling convention.
#[derive(Clone, Copy, Debug, PartialEq, Eq, Structural)]
pub enum BoundaryType {
    Byte,
    Short,
    Int,
    Long,
    Float,
    Double,
    /// The one-byte boolean.
    Boolean,
    /// A UTF-16 code unit.
    Char,
    Void,
    ObjectRef,
    ObjectArray,
    PrimitiveArray(BaseType),
}

/// A native value of a base type.
#[derive(Clone, Debug, PartialEq, Eq)]
pub enum Scalar {
    Byte(i8),
    Short(i16),
    Int(i32),
    Long(i64),
    /// An `f32`, by its bits.
    Float(u32),
    /// An `f64`, by its bits.
    Double(u64),
    Boolean(bool),
    Char(char),
    Text(String),
    /// An object handle passed through as it is; `None` is the null reference.
    Object(Option<u64>),
    Unit,
}

/// A native value of any semantic type that a rule handles.
#[derive(Clone, Debug, PartialEq, Eq)]
pub enum NativeValue {
    Single(Scalar),
    Optional(Option<Scalar>),
    Sequence(Vec<Scalar>),
}

/// The mathematical view of a [`NativeValue`].
pub enum NativeModel {
    Single(Scalar),
    Optional(Option<Scalar>),
    Sequence(Seq<Scalar>),
}

/// A boundary value that is not an array.
#[derive(Clone, Debug, PartialEq, Eq)]
pub enum WireScalar {
    Byte(i8),
    Short(i16),
    Int(i32),
    Long(i64),
    Float(u32),
    Double(u64),
    /// The one-byte boolean: zero is false.
    Boolean(u8),
    /// A UTF-16 code unit.
    Char(u16),
    Void,
    /// The null reference.
    Null,
    /// A reference to an object of the runtime.
    Object(u64),
    /// A reference to a string of the runtime, with its text.
    Str(String),
}

/// A boundary value: a scalar or an array of the runtime.
#[derive(Clone, Debug, PartialEq, Eq)]
pub enum WireValue {
    Scalar(WireScalar),
    ObjectArray(Vec<WireScalar>),
    PrimitiveArray(Vec<WireScalar>),
}

/// The mathematical view of a [`WireValue`].
pub enum WireModel {
    Scalar(WireScalar),
    ObjectArray(Seq<WireScalar>),
    PrimitiveArray(Seq<WireScalar>),
}

impl View for NativeValue {
    type V = NativeModel;

    open spec fn view(&self) -> NativeModel {
        match self {
            NativeValue::Single(x) => NativeModel::Single(*x),
            NativeValue::Optional(x) => NativeModel::Optional(*x),
            NativeValue::Sequence(xs) => NativeModel::Sequence(xs@),
        }
    }
}

impl View for WireValue {
    type V = WireModel;

    open spec fn view(&self) -> WireModel {
        match self {
            WireValue::Scalar(x) => WireModel::Scalar(*x),
            WireValue::ObjectArray(xs) => WireModel::ObjectArray(xs@),
            WireValue::PrimitiveArray(xs) => WireModel::PrimitiveArray(xs@),
        }
    }
}

/// Base types whose boundary form is a primitive of the calling convention.
pub open spec fn is_primitive(b: BaseType) -> bool {
    !(b is Text || b is Object || b is Unit)
}

/// Base types whose boundary form is an object reference.
pub open spec fn is_reference(b: BaseType) -> bool {
    b is Text || b is Object
}

/// Whether `b` is a primitive base type.
pub fn base_is_primitive(b: BaseType) -> (r: bool)
    ensures
        r == is_primitive(b),
{
    !matches!(b, BaseType::Text | BaseType::Object | BaseType::Unit)
}

/// Whether `b` is a reference base type.
pub fn base_is_reference(b: BaseType) -> (r: bool)
    ensures
        r == is_reference(b),
{
    matches!(b, BaseType::Text | BaseType::Object)
}

impl WireScalar {
    /// A copy of this value.
    pub fn duplicate(&self) -> (r: WireScalar)
        ensures
            r == *self,
    {
        match self {
            WireScalar::Byte(x) => WireScalar::Byte(*x),
            WireScalar::Short(x) => WireScalar::Short(*x),
            WireScalar::Int(x) => WireScalar::Int(*x),
            WireScalar::Long(x) => WireScalar::Long(*x),
            WireScalar::Float(x) => WireScalar::Float(*x),
            WireScalar::Double(x) => WireScalar::Double(*x),
            WireScalar::Boolean(x) => WireScalar::Boolean(*x),
            WireScalar::Char(x) => WireScalar::Char(*x),
            WireScalar::Void => WireScalar::Void,
            WireScalar::Null => WireScalar::Null,
            WireScalar::Object(h) => WireScalar::Object(*h),
            WireScalar::Str(s) => WireScalar::Str(s.clone()),
        }
    }
}

} // verus!
