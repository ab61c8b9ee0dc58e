//! The conversion-rule registry: for each semantic type, its boundary type and the
//! conversions in both directions.
use vstd::prelude::*;
use crate::model::{BaseType, BoundaryType, SemanticType, base_is_primitive, base_is_reference, is_primitive, is_reference};

verus! {

/// Why a value could not be converted across the boundary.
#[derive(Clone, Copy, Debug, PartialEq, Eq, Structural)]
pub enum ConversionError {
    /// A null reference where a value was required.
    NullReference,
    /// A code unit that is no Unicode scalar value, or a code point beyond one code unit.
    InvalidCharacter,
    /// A value whose shape does not match the declared type.
    TypeMismatch,
    /// No rule is registered for the type.
    UnsupportedType,
    /// A sequence too long for a boundary array.
    ArrayTooLong,
}

/// How the forward conversion (boundary to native) treats a value.
#[derive(Clone, Copy, Debug, PartialEq, Eq, Structural)]
pub enum ForwardPolicy {
    /// The value is taken as it is; this cannot fail.
    PassThrough,
    /// Nonzero is true.
    NonzeroTest,
    /// A code unit is decoded to a scalar value, failing on surrogates.
    CodeUnit,
    /// The runtime's string is decoded; null fails.
    RuntimeString,
    /// Null is the absent value; anything else goes to the wrapped rule.
    Nullable,
    /// Each element of an object array goes through the element rule, in order.
    Elementwise,
    /// The whole primitive array is moved in one region transfer.
    BulkRegion,
}

/// A registered rule: the native type, its boundary type, and how it is read.
#[derive(Clone, Copy, Debug, PartialEq, Eq, Structural)]
pub struct ConversionRule {
    pub native: SemanticType,
    pub boundary: BoundaryType,
    pub forward: ForwardPolicy,
}

/// The boundary type of a base type.
pub open spec fn boundary_of_base(b: BaseType) -> BoundaryType {
    match b {
        BaseType::Byte => BoundaryType::Byte,
        BaseType::Short => BoundaryType::Short,
        BaseType::Int => BoundaryType::Int,
        BaseType::Long => BoundaryType::Long,
        BaseType::Float => BoundaryType::Float,
        BaseType::Double => BoundaryType::Double,
        BaseType::Boolean => BoundaryType::Boolean,
        BaseType::Char => BoundaryType::Char,
        BaseType::Text => BoundaryType::ObjectRef,
        BaseType::Object => BoundaryType::ObjectRef,
        BaseType::Unit => BoundaryType::Void,
    }
}

/// How a base type is read from the boundary.
pub open spec fn forward_of_base(b: BaseType) -> ForwardPolicy {
    match b {
        BaseType::Boolean => ForwardPolicy::NonzeroTest,
        BaseType::Char => ForwardPolicy::CodeUnit,
        BaseType::Text => ForwardPolicy::RuntimeString,
        _ => ForwardPolicy::PassThrough,
    }
}

/// The registry's table: the rule for `t`, if one is registered.
pub open spec fn rule_of(t: SemanticType) -> Option<ConversionRule> {
    match t {
        SemanticType::Base(b) => Some(
            ConversionRule { native: t, boundary: boundary_of_base(b), forward: forward_of_base(b) },
        ),
        SemanticType::Optional(b) => if is_reference(b) {
            Some(
                ConversionRule {
                    native: t,
                    boundary: BoundaryType::ObjectRef,
                    forward: ForwardPolicy::Nullable,
                },
            )
        } else {
            None
        },
        SemanticType::Sequence(b) => if is_primitive(b) {
            Some(
                ConversionRule {
                    native: t,
                    boundary: BoundaryType::PrimitiveArray(b),
                    forward: ForwardPolicy::BulkRegion,
                },
            )
        } else if is_reference(b) {
            Some(
                ConversionRule {
                    native: t,
                    boundary: BoundaryType::ObjectArray,
                    forward: ForwardPolicy::Elementwise,
                },
            )
        } else {
            None
        },
        _ => None,
    }
}

/// The boundary type of a base type.
pub fn boundary_type_of_base(b: BaseType) -> (r: BoundaryType)
    ensures
        r == boundary_of_base(b),
{
    match b {
        BaseType::Byte => BoundaryType::Byte,
        BaseType::Short => BoundaryType::Short,
        BaseType::Int => BoundaryType::Int,
        BaseType::Long => BoundaryType::Long,
        BaseType::Float => BoundaryType::Float,
        BaseType::Double => BoundaryType::Double,
        BaseType::Boolean => BoundaryType::Boolean,
        BaseType::Char => BoundaryType::Char,
        BaseType::Text => BoundaryType::ObjectRef,
        BaseType::Object => BoundaryType::ObjectRef,
        BaseType::Unit => BoundaryType::Void,
    }
}

/// Looks up the rule registered for `t`.
pub fn lookup(t: SemanticType) -> (r: Result<ConversionRule, ConversionError>)
    ensures
        r == match rule_of(t) {
            Some(rule) => Ok::<ConversionRule, ConversionError>(rule),
            None => Err(ConversionError::UnsupportedType),
        },
{
    match t {
        SemanticType::Base(b) => {
            let forward = match b {
                BaseType::Boolean => ForwardPolicy::NonzeroTest,
                BaseType::Char => ForwardPolicy::CodeUnit,
                BaseType::Text => ForwardPolicy::RuntimeString,
                _ => ForwardPolicy::PassThrough,
            };
            Ok(ConversionRule { native: t, boundary: boundary_type_of_base(b), forward })
        },
        SemanticType::Optional(b) => {
            if base_is_reference(b) {
                Ok(
                    ConversionRule {
                        native: t,
                        boundary: BoundaryType::ObjectRef,
                        forward: ForwardPolicy::Nullable,
                    },
                )
            } else {
                Err(ConversionError::UnsupportedType)
            }
        },
        SemanticType::Sequence(b) => {
            if base_is_primitive(b) {
                Ok(
                    ConversionRule {
                        native: t,
                        boundary: BoundaryType::PrimitiveArray(b),
                        forward: ForwardPolicy::BulkRegion,
                    },
                )
            } else if base_is_reference(b) {
                Ok(
                    ConversionRule {
                        native: t,
                        boundary: BoundaryType::ObjectArray,
                        forward: ForwardPolicy::Elementwise,
                    },
                )
            } else {
                Err(ConversionError::UnsupportedType)
            }
        },
        _ => Err(ConversionError::UnsupportedType),
    }
}

/// The exception class signalled for a conversion failure: the null-reference class for a
/// null reference, the generic runtime exception otherwise.
pub open spec fn class_of_error(e: ConversionError) -> Seq<char> {
    if e is NullReference {
        "java/lang/NullPointerException"@
    } else {
        "java/lang/RuntimeException"@
    }
}

/// The diagnostic message of a conversion failure.
pub open spec fn message_of_error(e: ConversionError) -> Seq<char> {
    match e {
        ConversionError::NullReference => "null reference where a value was required"@,
        ConversionError::InvalidCharacter => "invalid character"@,
        ConversionError::TypeMismatch => "value does not match the declared type"@,
        ConversionError::UnsupportedType => "no conversion rule for the type"@,
        ConversionError::ArrayTooLong => "sequence too long for an array"@,
    }
}

impl ConversionError {
    /// The exception class signalled for this failure.
    pub fn exception_class(&self) -> (r: String)
        ensures
            r@ == class_of_error(*self),
    {
        match self {
            ConversionError::NullReference => "java/lang/NullPointerException".to_owned(),
            _ => "java/lang/RuntimeException".to_owned(),
        }
    }

    /// The diagnostic message of this failure.
    pub fn message(&self) -> (r: String)
        ensures
            r@ == message_of_error(*self),
    {
        match self {
            ConversionError::NullReference => "null reference where a value was required".to_owned(),
            ConversionError::InvalidCharacter => "invalid character".to_owned(),
            ConversionError::TypeMismatch => "value does not match the declared type".to_owned(),
            ConversionError::UnsupportedType => "no conversion rule for the type".to_owned(),
            ConversionError::ArrayTooLong => "sequence too long for an array".to_owned(),
        }
    }
}

/// An error that names the foreign exception class it is signalled as.
pub trait JniToolboxError {
    /// The slash-qualified class of the matching exception.
    fn jclass(&self) -> String;
}

impl JniToolboxError for ConversionError {
    fn jclass(&self) -> String {
        self.exception_class()
    }
}

} // verus!
