//! The signature descriptor builder: from a function's declared parameters and return
//! clause to a [`FunctionSignature`].
use vstd::prelude::*;
use crate::model::{BaseType, SemanticType, is_primitive};
use crate::text::same_text;

verus! {

/// The outer shape of a declared type.
#[derive(Clone, Copy, Debug, PartialEq, Eq, Structural)]
pub enum TypeShape {
    /// A path such as `i32`, `Vec<String>` or `Result<(), E>`.
    Path,
    /// A reference to a path, such as `&mut JNIEnv<'local>`.
    Reference,
    Tuple,
    Never,
    Other,
}

/// How the generic arguments of a path's last segment are written.
#[derive(Clone, Copy, Debug, PartialEq, Eq, Structural)]
pub enum Brackets {
    Bare,
    Angle,
    Parenthesized,
}

/// A declared type as written: for a path or a reference to one, the identifier of the
/// last segment and its generic arguments; for a tuple, its elements in `args`.
#[derive(Debug)]
pub struct TypeSyntax {
    pub shape: TypeShape,
    pub name: String,
    pub brackets: Brackets,
    /// Lifetime arguments.
    pub lifetimes: usize,
    /// Type arguments, or a tuple's elements.
    pub args: Vec<TypeSyntax>,
    /// Generic arguments that are neither lifetimes nor types.
    pub other_args: usize,
}

/// A declared parameter.
#[derive(Debug)]
pub enum ParamSyntax {
    /// `self` in any form.
    Receiver,
    /// A parameter bound to a plain name.
    Typed { name: String, ty: TypeSyntax },
    /// A parameter bound by a destructuring pattern.
    Destructured,
}

/// The role of a parameter in the boundary's calling convention.
#[derive(Clone, Copy, Debug, PartialEq, Eq, Structural)]
pub enum Role {
    ContextHandle,
    ClassHandle,
    Value,
}

/// How the wrapped function returns.
#[derive(Clone, Copy, Debug, PartialEq, Eq, Structural)]
pub enum ReturnKind {
    Void,
    Value,
    /// A two-armed success/failure result; the inner type is the success arm.
    Fallible,
}

/// How the boundary returns a value.
#[derive(Clone, Copy, Debug, PartialEq, Eq, Structural)]
pub enum Representation {
    Primitive,
    ObjectReference,
}

#[derive(Clone, Debug)]
pub struct ParameterDescriptor {
    pub name: String,
    pub ty: SemanticType,
    pub role: Role,
}

#[derive(Clone, Copy, Debug, PartialEq, Eq, Structural)]
pub struct ReturnDescriptor {
    pub kind: ReturnKind,
    pub inner: SemanticType,
    pub representation: Representation,
}

/// A function's parameters, in declaration order, and its return.
#[derive(Clone, Debug)]
pub struct FunctionSignature {
    pub name: String,
    pub params: Vec<ParameterDescriptor>,
    pub ret: ReturnDescriptor,
}

/// Why a declaration cannot be exported.
#[derive(Clone, Copy, Debug, PartialEq, Eq, Structural)]
pub enum SignatureError {
    /// The function takes `self`.
    MethodNotExportable,
    /// A parameter is bound by a pattern other than a plain name.
    UnsupportedPattern,
    /// The return type is not a path.
    UnsupportedReturn,
    /// A result type written without generic arguments.
    ResultWithoutArguments,
    /// A result type written with parenthesized arguments.
    ParenthesizedResult,
    /// A result type whose type arguments do not name one success type.
    AmbiguousResult,
    /// The namespace option is missing.
    MissingNamespace,
    /// The class option is missing.
    MissingClass,
    /// The namespace, class or method is not a well-formed name.
    InvalidName,
    /// The return-representation option contradicts the return type.
    RepresentationMismatch,
    /// No conversion rule is registered for a parameter or the result.
    UnsupportedType,
}

/// The base type that a plain path names, if any.
pub open spec fn base_named(n: Seq<char>) -> Option<BaseType> {
    if n == "i8"@ {
        Some(BaseType::Byte)
    } else if n == "i16"@ {
        Some(BaseType::Short)
    } else if n == "i32"@ {
        Some(BaseType::Int)
    } else if n == "i64"@ {
        Some(BaseType::Long)
    } else if n == "f32"@ {
        Some(BaseType::Float)
    } else if n == "f64"@ {
        Some(BaseType::Double)
    } else if n == "bool"@ {
        Some(BaseType::Boolean)
    } else if n == "char"@ {
        Some(BaseType::Char)
    } else if n == "String"@ {
        Some(BaseType::Text)
    } else if n == "JObject"@ {
        Some(BaseType::Object)
    } else {
        None
    }
}

/// A path with no type arguments (lifetimes allowed).
pub open spec fn is_plain_path(t: TypeSyntax) -> bool {
    t.shape is Path && t.args@.len() == 0 && t.other_args == 0 && !(t.brackets is Parenthesized)
}

/// A path with exactly one type argument in angle brackets.
pub open spec fn has_one_type_arg(t: TypeSyntax) -> bool {
    t.shape is Path && t.brackets is Angle && t.args@.len() == 1 && t.other_args == 0
}

/// The base type a declared type names: a plain path of a base type, or `()`.
pub open spec fn base_of(t: TypeSyntax) -> Option<BaseType> {
    if t.shape is Tuple && t.args@.len() == 0 {
        Some(BaseType::Unit)
    } else if is_plain_path(t) {
        base_named(t.name@)
    } else {
        None
    }
}

/// The semantic type of a declared type.
pub open spec fn semantic_of(t: TypeSyntax) -> SemanticType {
    if (t.shape is Path || t.shape is Reference) && t.args@.len() == 0 && t.other_args == 0
        && t.name@ == "JNIEnv"@ {
        SemanticType::ContextHandle
    } else if (t.shape is Path || t.shape is Reference) && t.args@.len() == 0 && t.other_args == 0
        && t.name@ == "JClass"@ {
        SemanticType::ClassHandle
    } else if base_of(t) is Some {
        SemanticType::Base(base_of(t)->Some_0)
    } else if has_one_type_arg(t) && t.name@ == "Option"@ && base_of(t.args@[0]) is Some {
        SemanticType::Optional(base_of(t.args@[0])->Some_0)
    } else if has_one_type_arg(t) && t.name@ == "Vec"@ && base_of(t.args@[0]) is Some {
        SemanticType::Sequence(base_of(t.args@[0])->Some_0)
    } else {
        SemanticType::Unsupported
    }
}

/// The role a parameter of semantic type `t` plays.
pub open spec fn role_of(t: SemanticType) -> Role {
    match t {
        SemanticType::ContextHandle => Role::ContextHandle,
        SemanticType::ClassHandle => Role::ClassHandle,
        _ => Role::Value,
    }
}

/// How a value of semantic type `t` is returned across the boundary.
pub open spec fn representation_of(t: SemanticType) -> Representation {
    match t {
        SemanticType::Base(b) => if is_primitive(b) || b is Unit {
            Representation::Primitive
        } else {
            Representation::ObjectReference
        },
        _ => Representation::ObjectReference,
    }
}

/// The descriptor of one declared parameter.
pub open spec fn describe_param(p: ParamSyntax) -> Result<ParameterDescriptor, SignatureError> {
    match p {
        ParamSyntax::Receiver => Err(SignatureError::MethodNotExportable),
        ParamSyntax::Destructured => Err(SignatureError::UnsupportedPattern),
        ParamSyntax::Typed { name, ty } => Ok(
            ParameterDescriptor { name, ty: semantic_of(ty), role: role_of(semantic_of(ty)) },
        ),
    }
}

/// The descriptors of the declared parameters, in order; the first failure is the result.
pub open spec fn describe_params(ps: Seq<ParamSyntax>) -> Result<Seq<ParameterDescriptor>, SignatureError>
    decreases ps.len(),
{
    if ps.len() == 0 {
        Ok(Seq::empty())
    } else {
        match describe_params(ps.drop_last()) {
            Err(e) => Err(e),
            Ok(ds) => match describe_param(ps.last()) {
                Err(e) => Err(e),
                Ok(d) => Ok(ds.push(d)),
            },
        }
    }
}

/// A return descriptor for a value of semantic type `t`.
pub open spec fn returning(kind: ReturnKind, t: SemanticType) -> ReturnDescriptor {
    ReturnDescriptor { kind, inner: t, representation: representation_of(t) }
}

/// The descriptor of a return clause (`None` is the empty clause).
pub open spec fn describe_return(ret: Option<TypeSyntax>) -> Result<ReturnDescriptor, SignatureError> {
    match ret {
        None => Ok(returning(ReturnKind::Void, SemanticType::Base(BaseType::Unit))),
        Some(t) => if !(t.shape is Path) {
            Err(SignatureError::UnsupportedReturn)
        } else if t.name@ == "Result"@ {
            if t.brackets is Bare {
                Err(SignatureError::ResultWithoutArguments)
            } else if t.brackets is Parenthesized {
                Err(SignatureError::ParenthesizedResult)
            } else if t.other_args != 0 || t.args@.len() == 0 || t.args@.len() > 2 {
                Err(SignatureError::AmbiguousResult)
            } else {
                Ok(returning(ReturnKind::Fallible, semantic_of(t.args@[0])))
            }
        } else {
            Ok(returning(ReturnKind::Value, semantic_of(t)))
        },
    }
}

} // verus!

verus! {

/// The base type that a plain path names, if any.
pub fn base_type_named(n: &str) -> (r: Option<BaseType>)
    ensures
        r == base_named(n@),
{
    if same_text(n, "i8") {
        Some(BaseType::Byte)
    } else if same_text(n, "i16") {
        Some(BaseType::Short)
    } else if same_text(n, "i32") {
        Some(BaseType::Int)
    } else if same_text(n, "i64") {
        Some(BaseType::Long)
    } else if same_text(n, "f32") {
        Some(BaseType::Float)
    } else if same_text(n, "f64") {
        Some(BaseType::Double)
    } else if same_text(n, "bool") {
        Some(BaseType::Boolean)
    } else if same_text(n, "char") {
        Some(BaseType::Char)
    } else if same_text(n, "String") {
        Some(BaseType::Text)
    } else if same_text(n, "JObject") {
        Some(BaseType::Object)
    } else {
        None
    }
}

/// The base type a declared type names, if any.
pub fn base_type_of(t: &TypeSyntax) -> (r: Option<BaseType>)
    ensures
        r == base_of(*t),
{
    if matches!(t.shape, TypeShape::Tuple) && t.args.len() == 0 {
        Some(BaseType::Unit)
    } else if matches!(t.shape, TypeShape::Path) && t.args.len() == 0 && t.other_args == 0
        && !matches!(t.brackets, Brackets::Parenthesized) {
        base_type_named(t.name.as_str())
    } else {
        None
    }
}

/// The semantic type of a declared type.
pub fn semantic_type_of(t: &TypeSyntax) -> (r: SemanticType)
    ensures
        r == semantic_of(*t),
{
    let handle_shape = (matches!(t.shape, TypeShape::Path) || matches!(t.shape, TypeShape::Reference))
        && t.args.len() == 0 && t.other_args == 0;
    if handle_shape && same_text(t.name.as_str(), "JNIEnv") {
        return SemanticType::ContextHandle;
    }
    if handle_shape && same_text(t.name.as_str(), "JClass") {
        return SemanticType::ClassHandle;
    }
    if let Some(b) = base_type_of(t) {
        return SemanticType::Base(b);
    }
    let one_arg = matches!(t.shape, TypeShape::Path) && matches!(t.brackets, Brackets::Angle)
        && t.args.len() == 1 && t.other_args == 0;
    if one_arg {
        if same_text(t.name.as_str(), "Option") {
            if let Some(b) = base_type_of(&t.args[0]) {
                return SemanticType::Optional(b);
            }
        } else if same_text(t.name.as_str(), "Vec") {
            if let Some(b) = base_type_of(&t.args[0]) {
                return SemanticType::Sequence(b);
            }
        }
    }
    SemanticType::Unsupported
}

/// How a value of semantic type `t` is returned across the boundary.
pub fn representation_for(t: SemanticType) -> (r: Representation)
    ensures
        r == representation_of(t),
{
    match t {
        SemanticType::Base(b) => if crate::model::base_is_primitive(b) || matches!(b, BaseType::Unit) {
            Representation::Primitive
        } else {
            Representation::ObjectReference
        },
        _ => Representation::ObjectReference,
    }
}

/// The return descriptor of a declared return clause (`None` is the empty clause).
pub fn build_return(ret: &Option<TypeSyntax>) -> (r: Result<ReturnDescriptor, SignatureError>)
    ensures
        r == describe_return(*ret),
{
    match ret {
        None => Ok(
            ReturnDescriptor {
                kind: ReturnKind::Void,
                inner: SemanticType::Base(BaseType::Unit),
                representation: Representation::Primitive,
            },
        ),
        Some(t) => {
            if !matches!(t.shape, TypeShape::Path) {
                return Err(SignatureError::UnsupportedReturn);
            }
            if same_text(t.name.as_str(), "Result") {
                match t.brackets {
                    Brackets::Bare => Err(SignatureError::ResultWithoutArguments),
                    Brackets::Parenthesized => Err(SignatureError::ParenthesizedResult),
                    Brackets::Angle => {
                        if t.other_args != 0 || t.args.len() == 0 || t.args.len() > 2 {
                            Err(SignatureError::AmbiguousResult)
                        } else {
                            let inner = semantic_type_of(&t.args[0]);
                            Ok(
                                ReturnDescriptor {
                                    kind: ReturnKind::Fallible,
                                    inner,
                                    representation: representation_for(inner),
                                },
                            )
                        }
                    },
                }
            } else {
                let inner = semantic_type_of(t);
                Ok(
                    ReturnDescriptor {
                        kind: ReturnKind::Value,
                        inner,
                        representation: representation_for(inner),
                    },
                )
            }
        },
    }
}

/// The descriptor of one declared parameter.
fn build_param(p: &ParamSyntax) -> (r: Result<ParameterDescriptor, SignatureError>)
    ensures
        r == describe_param(*p),
{
    match p {
        ParamSyntax::Receiver => Err(SignatureError::MethodNotExportable),
        ParamSyntax::Destructured => Err(SignatureError::UnsupportedPattern),
        ParamSyntax::Typed { name, ty } => {
            let t = semantic_type_of(ty);
            let role = match t {
                SemanticType::ContextHandle => Role::ContextHandle,
                SemanticType::ClassHandle => Role::ClassHandle,
                _ => Role::Value,
            };
            Ok(ParameterDescriptor { name: name.clone(), ty: t, role })
        },
    }
}

proof fn lemma_describe_params_err_extends(ps: Seq<ParamSyntax>, k: int, e: SignatureError)
    requires
        0 <= k <= ps.len(),
        describe_params(ps.subrange(0, k)) == Err::<Seq<ParameterDescriptor>, SignatureError>(e),
    ensures
        describe_params(ps) == Err::<Seq<ParameterDescriptor>, SignatureError>(e),
    decreases ps.len() - k,
{
    if k == ps.len() {
        assert(ps.subrange(0, k) =~= ps);
    } else {
        assert(ps.subrange(0, k + 1).drop_last() =~= ps.subrange(0, k));
        lemma_describe_params_err_extends(ps, k + 1, e);
    }
}

/// The descriptor of a function: its declared parameters in order, then its return.
/// A parameter that fails is reported before the return clause is read.
pub fn build_signature(name: &str, params: &Vec<ParamSyntax>, ret: &Option<TypeSyntax>) -> (r: Result<
    FunctionSignature,
    SignatureError,
>)
    ensures
        match r {
            Ok(sig) => {
                &&& sig.name@ == name@
                &&& describe_params(params@) == Ok::<Seq<ParameterDescriptor>, SignatureError>(sig.params@)
                &&& describe_return(*ret) == Ok::<ReturnDescriptor, SignatureError>(sig.ret)
            },
            Err(e) => match describe_params(params@) {
                Err(pe) => e == pe,
                Ok(_) => describe_return(*ret) == Err::<ReturnDescriptor, SignatureError>(e),
            },
        },
{
    let mut descs: Vec<ParameterDescriptor> = Vec::new();
    let mut i: usize = 0;
    while i < params.len()
        invariant
            i <= params@.len(),
            describe_params(params@.subrange(0, i as int)) == Ok::<Seq<ParameterDescriptor>, SignatureError>(descs@),
        decreases params@.len() - i,
    {
        proof {
            assert(params@.subrange(0, i + 1).drop_last() =~= params@.subrange(0, i as int));
            assert(params@.subrange(0, i + 1).last() == params@[i as int]);
        }
        match build_param(&params[i]) {
            Ok(d) => descs.push(d),
            Err(e) => {
                proof {
                    lemma_describe_params_err_extends(params@, i + 1, e);
                }
                return Err(e);
            },
        }
        i = i + 1;
    }
    assert(params@.subrange(0, i as int) =~= params@);
    let ret = build_return(ret)?;
    Ok(FunctionSignature { name: name.to_owned(), params: descs, ret })
}

} // verus!
