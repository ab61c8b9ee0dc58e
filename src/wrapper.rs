//! The argument marshalling planner and the wrapper synthesizer: from a signature and
//! its export configuration to the specification of a boundary entry point.
use vstd::prelude::*;
use crate::model::{BoundaryType, SemanticType, WireScalar};
use crate::registry::{ConversionRule, lookup, rule_of};
use crate::signature::{
    FunctionSignature, ParameterDescriptor, Representation, ReturnDescriptor, ReturnKind, Role,
    SignatureError,
};
use crate::symbol::{
    check_identifier, check_qualified_name, is_identifier, is_qualified_name, lemma_symbol_injective, symbol_name,
    symbol_of,
};

verus! {

/// The options of one exported function.
#[derive(Clone, Debug)]
pub struct ExportConfig {
    /// The dotted namespace (required).
    pub namespace: Option<String>,
    /// The exported class name (required).
    pub class: Option<String>,
    /// A fixed, slash-qualified exception class for failures of the wrapped function.
    pub exception_class: Option<String>,
    /// Whether the boundary returns an object reference; inferred when absent.
    pub returns_reference: Option<bool>,
    pub inline: bool,
}

/// Which exception class a failure of the wrapped function is signalled with.
#[derive(Clone, Debug, PartialEq, Eq)]
pub enum ExceptionPolicy {
    Fixed(String),
    /// Each failure value names its own class.
    SelfDescribed,
}

/// How a declared parameter reaches the wrapped function.
#[derive(Clone, Copy, Debug, PartialEq, Eq, Structural)]
pub enum ParamSource {
    /// The originating-class handle, passed through unconverted.
    ClassHandle,
    /// Converted by the rule before the inner call.
    Converted(ConversionRule),
}

/// A declared parameter in the boundary's parameter list.
#[derive(Clone, Debug)]
pub struct PlannedParam {
    pub name: String,
    pub source: ParamSource,
}

/// How the arguments are passed. The boundary's parameters are, in order: the context
/// handle, the class-handle placeholder when `class_injected`, then `params`.
#[derive(Clone, Debug)]
pub struct ArgumentPlan {
    pub context_name: String,
    /// Whether the wrapped function takes the context handle as its first argument.
    pub context_forwarded: bool,
    pub class_injected: bool,
    /// The declared parameters after the context handle, in declaration order.
    pub params: Vec<PlannedParam>,
}

/// A synthesized boundary entry point.
#[derive(Clone, Debug)]
pub struct WrapperSpec {
    pub symbol: String,
    /// The wrapped function.
    pub inner_name: String,
    pub plan: ArgumentPlan,
    pub ret: ReturnDescriptor,
    /// The rule that converts the success value back.
    pub return_rule: ConversionRule,
    /// How a failure of the wrapped function is signalled; `None` if it cannot fail.
    pub exception: Option<ExceptionPolicy>,
    /// The value returned on every path that signals an exception.
    pub sentinel: WireScalar,
    pub inline: bool,
}

/// The first declared parameter is the context handle.
pub open spec fn context_declared(ps: Seq<ParameterDescriptor>) -> bool {
    ps.len() > 0 && ps[0].role is ContextHandle
}

/// Some declared parameter is the originating-class handle.
pub open spec fn class_declared(ps: Seq<ParameterDescriptor>) -> bool {
    exists|i: int| 0 <= i < ps.len() && (#[trigger] ps[i]).role is ClassHandle
}

/// The declared parameters after the context handle.
pub open spec fn planned_params(ps: Seq<ParameterDescriptor>) -> Seq<ParameterDescriptor> {
    if context_declared(ps) {
        ps.drop_first()
    } else {
        ps
    }
}

/// How one declared parameter (after the context handle) is passed.
pub open spec fn plan_param(p: ParameterDescriptor) -> Result<ParamSource, SignatureError> {
    match p.role {
        Role::ClassHandle => Ok(ParamSource::ClassHandle),
        Role::ContextHandle => Err(SignatureError::UnsupportedType),
        Role::Value => match rule_of(p.ty) {
            Some(rule) => Ok(ParamSource::Converted(rule)),
            None => Err(SignatureError::UnsupportedType),
        },
    }
}

/// Whether the boundary returns a primitive.
pub open spec fn is_primitive_boundary(bt: BoundaryType) -> bool {
    !(bt is ObjectRef || bt is ObjectArray || bt is PrimitiveArray)
}

/// The value returned on a path that signals an exception: zero of a primitive, nothing
/// for void, and the null reference for any reference.
pub open spec fn sentinel_for(bt: BoundaryType) -> WireScalar {
    match bt {
        BoundaryType::Byte => WireScalar::Byte(0),
        BoundaryType::Short => WireScalar::Short(0),
        BoundaryType::Int => WireScalar::Int(0),
        BoundaryType::Long => WireScalar::Long(0),
        BoundaryType::Float => WireScalar::Float(0),
        BoundaryType::Double => WireScalar::Double(0),
        BoundaryType::Boolean => WireScalar::Boolean(0),
        BoundaryType::Char => WireScalar::Char(0),
        BoundaryType::Void => WireScalar::Void,
        _ => WireScalar::Null,
    }
}

/// Whether a boundary scalar is a value of boundary type `bt`.
pub open spec fn fits_boundary(bt: BoundaryType, w: WireScalar) -> bool {
    match bt {
        BoundaryType::Byte => w is Byte,
        BoundaryType::Short => w is Short,
        BoundaryType::Int => w is Int,
        BoundaryType::Long => w is Long,
        BoundaryType::Float => w is Float,
        BoundaryType::Double => w is Double,
        BoundaryType::Boolean => w is Boolean,
        BoundaryType::Char => w is Char,
        BoundaryType::Void => w is Void,
        BoundaryType::ObjectRef => w is Null || w is Object || w is Str,
        _ => w is Null,
    }
}

/// `p` is the plan of the declared parameters `ps`.
pub open spec fn is_plan_of(ps: Seq<ParameterDescriptor>, p: ArgumentPlan) -> bool {
    let rest = planned_params(ps);
    &&& p.context_forwarded == context_declared(ps)
    &&& if context_declared(ps) {
        p.context_name@ == ps[0].name@
    } else {
        p.context_name@ == "env"@
    }
    &&& p.class_injected == !class_declared(ps)
    &&& p.params@.len() == rest.len()
    &&& forall|k: int|
        0 <= k < rest.len() ==> p.params@[k].name == rest[k].name && plan_param(#[trigger] rest[k])
            == Ok::<ParamSource, SignatureError>(p.params@[k].source)
}

/// The first reason, if any, that `sig` cannot be exported under `cfg`.
pub open spec fn synthesis_error(sig: FunctionSignature, cfg: ExportConfig) -> Option<SignatureError> {
    let rest = planned_params(sig.params@);
    if cfg.namespace is None {
        Some(SignatureError::MissingNamespace)
    } else if cfg.class is None {
        Some(SignatureError::MissingClass)
    } else if !is_qualified_name(cfg.namespace->Some_0@) || !is_identifier(cfg.class->Some_0@)
        || !is_identifier(sig.name@) {
        Some(SignatureError::InvalidName)
    } else if exists|k: int| 0 <= k < rest.len() && (#[trigger] plan_param(rest[k])) is Err {
        Some(SignatureError::UnsupportedType)
    } else if rule_of(sig.ret.inner) is None {
        Some(SignatureError::UnsupportedType)
    } else if cfg.returns_reference is Some && cfg.returns_reference->Some_0 != (sig.ret.representation is ObjectReference) {
        Some(SignatureError::RepresentationMismatch)
    } else {
        None
    }
}

/// The sentinel for a boundary type.
pub fn sentinel_value(bt: BoundaryType) -> (r: WireScalar)
    ensures
        r == sentinel_for(bt),
        fits_boundary(bt, r),
{
    match bt {
        BoundaryType::Byte => WireScalar::Byte(0),
        BoundaryType::Short => WireScalar::Short(0),
        BoundaryType::Int => WireScalar::Int(0),
        BoundaryType::Long => WireScalar::Long(0),
        BoundaryType::Float => WireScalar::Float(0),
        BoundaryType::Double => WireScalar::Double(0),
        BoundaryType::Boolean => WireScalar::Boolean(0),
        BoundaryType::Char => WireScalar::Char(0),
        BoundaryType::Void => WireScalar::Void,
        _ => WireScalar::Null,
    }
}

/// How one declared parameter (after the context handle) is passed.
fn plan_one(p: &ParameterDescriptor) -> (r: Result<ParamSource, SignatureError>)
    ensures
        r == plan_param(*p),
{
    match p.role {
        Role::ClassHandle => Ok(ParamSource::ClassHandle),
        Role::ContextHandle => Err(SignatureError::UnsupportedType),
        Role::Value => match lookup(p.ty) {
            Ok(rule) => Ok(ParamSource::Converted(rule)),
            Err(_) => Err(SignatureError::UnsupportedType),
        },
    }
}

/// Plans the arguments: the context handle first (the declared one, or one injected when
/// the first parameter is not a context handle), a class-handle placeholder when no
/// parameter is one, then each remaining parameter with its conversion rule.
pub fn plan(sig: &FunctionSignature) -> (r: Result<ArgumentPlan, SignatureError>)
    ensures
        match r {
            Ok(p) => is_plan_of(sig.params@, p),
            Err(e) => e == SignatureError::UnsupportedType && exists|k: int|
                0 <= k < planned_params(sig.params@).len() && (#[trigger] plan_param(
                    planned_params(sig.params@)[k],
                )) is Err,
        },
{
    let ps = &sig.params;
    let ghost rest = planned_params(ps@);
    let n = ps.len();
    let context = n > 0 && matches!(ps[0].role, Role::ContextHandle);
    let start: usize = if context { 1 } else { 0 };
    proof {
        assert(rest.len() == n - start);
        assert forall|k: int| 0 <= k < rest.len() implies rest[k] == ps@[start + k] by {}
    }
    let mut class_seen = false;
    let mut out: Vec<PlannedParam> = Vec::new();
    let mut i: usize = start;
    while i < n
        invariant
            n == ps@.len(),
            ps@ == sig.params@,
            rest == planned_params(ps@),
            rest.len() == n - start,
            forall|k: int| 0 <= k < rest.len() ==> rest[k] == ps@[start + k],
            start <= i <= n,
            start == (if context_declared(ps@) { 1int } else { 0int }),
            out@.len() == i - start,
            forall|k: int|
                0 <= k < out@.len() ==> out@[k].name == rest[k].name && plan_param(#[trigger] rest[k])
                    == Ok::<ParamSource, SignatureError>(out@[k].source),
            class_seen == exists|j: int| start <= j < i && (#[trigger] ps@[j]).role is ClassHandle,
        decreases n - i,
    {
        let p = &ps[i];
        proof {
            assert(rest[i - start] == ps@[i as int]);
        }
        match plan_one(p) {
            Ok(source) => {
                if matches!(p.role, Role::ClassHandle) {
                    class_seen = true;
                }
                out.push(PlannedParam { name: p.name.clone(), source });
            },
            Err(_) => {
                proof {
                    let k = i - start;
                    assert(plan_param(rest[k]) is Err);
                    assert(0 <= k < planned_params(sig.params@).len());
                    assert(planned_params(sig.params@)[k] == rest[k]);
                }
                return Err(SignatureError::UnsupportedType);
            },
        }
        i = i + 1;
    }
    proof {
        if class_declared(ps@) {
            let j = choose|j: int| 0 <= j < ps@.len() && (#[trigger] ps@[j]).role is ClassHandle;
            if j < start {
                assert(ps@[j].role is ContextHandle);
            }
        }
    }
    let context_name = if context {
        ps[0].name.clone()
    } else {
        "env".to_owned()
    };
    Ok(ArgumentPlan { context_name, context_forwarded: context, class_injected: !class_seen, params: out })
}

/// The exception policy of a wrapped function: none unless it is fallible; then the
/// configured class if there is one, else the class each failure names.
pub open spec fn policy_for(ret: ReturnDescriptor, cfg: ExportConfig) -> Option<ExceptionPolicy> {
    if ret.kind is Fallible {
        match cfg.exception_class {
            Some(c) => Some(ExceptionPolicy::Fixed(c)),
            None => Some(ExceptionPolicy::SelfDescribed),
        }
    } else {
        None
    }
}

/// Synthesizes the boundary entry point for `sig` under `cfg`: its symbol, its argument
/// plan, its return conversion, its exception policy and its sentinel.
pub fn synthesize(sig: &FunctionSignature, cfg: &ExportConfig) -> (r: Result<WrapperSpec, SignatureError>)
    ensures
        match r {
            Ok(w) => {
                &&& synthesis_error(*sig, *cfg) is None
                &&& w.symbol@ == symbol_of(cfg.namespace->Some_0@, cfg.class->Some_0@, sig.name@)
                &&& w.inner_name@ == sig.name@
                &&& is_plan_of(sig.params@, w.plan)
                &&& w.ret == sig.ret
                &&& rule_of(sig.ret.inner) == Some(w.return_rule)
                &&& w.exception == policy_for(sig.ret, *cfg)
                &&& w.sentinel == sentinel_for(w.return_rule.boundary)
                &&& fits_boundary(w.return_rule.boundary, w.sentinel)
                &&& w.inline == cfg.inline
            },
            Err(e) => synthesis_error(*sig, *cfg) == Some(e),
        },
{
    let namespace = match &cfg.namespace {
        Some(n) => n,
        None => return Err(SignatureError::MissingNamespace),
    };
    let class = match &cfg.class {
        Some(c) => c,
        None => return Err(SignatureError::MissingClass),
    };
    if !check_qualified_name(namespace.as_str()) || !check_identifier(class.as_str())
        || !check_identifier(sig.name.as_str()) {
        return Err(SignatureError::InvalidName);
    }
    let plan = plan(sig)?;
    let return_rule = match lookup(sig.ret.inner) {
        Ok(rule) => rule,
        Err(_) => return Err(SignatureError::UnsupportedType),
    };
    if let Some(by_reference) = cfg.returns_reference {
        if by_reference != matches!(sig.ret.representation, Representation::ObjectReference) {
            return Err(SignatureError::RepresentationMismatch);
        }
    }
    let exception = if matches!(sig.ret.kind, ReturnKind::Fallible) {
        match &cfg.exception_class {
            Some(c) => Some(ExceptionPolicy::Fixed(c.clone())),
            None => Some(ExceptionPolicy::SelfDescribed),
        }
    } else {
        None
    };
    let sentinel = sentinel_value(return_rule.boundary);
    Ok(
        WrapperSpec {
            symbol: symbol_name(namespace.as_str(), class.as_str(), sig.name.as_str()),
            inner_name: sig.name.clone(),
            plan,
            ret: sig.ret,
            return_rule,
            exception,
            sentinel,
            inline: cfg.inline,
        },
    )
}

/// Two functions that both synthesize share an exported symbol only if they export the
/// same method of the same class in the same namespace.
pub proof fn lemma_synthesized_symbols_distinct(
    sig1: FunctionSignature,
    cfg1: ExportConfig,
    sig2: FunctionSignature,
    cfg2: ExportConfig,
)
    requires
        synthesis_error(sig1, cfg1) is None,
        synthesis_error(sig2, cfg2) is None,
        symbol_of(cfg1.namespace->Some_0@, cfg1.class->Some_0@, sig1.name@) == symbol_of(
            cfg2.namespace->Some_0@,
            cfg2.class->Some_0@,
            sig2.name@,
        ),
    ensures
        cfg1.namespace->Some_0@ == cfg2.namespace->Some_0@,
        cfg1.class->Some_0@ == cfg2.class->Some_0@,
        sig1.name@ == sig2.name@,
{
    lemma_symbol_injective(
        cfg1.namespace->Some_0@,
        cfg1.class->Some_0@,
        sig1.name@,
        cfg2.namespace->Some_0@,
        cfg2.class->Some_0@,
        sig2.name@,
    );
}

} // verus!
