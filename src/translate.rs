//! What a synthesized entry point does when it is called: the argument prologue, and the
//! translation of the wrapped function's outcome into a returned value or a signalled
//! exception with the sentinel.
//!
//! The runtime's own work (calling the wrapped function, signalling the exception) is left
//! to the caller, who hands each result back to the next step.
//!
//! As a state machine: [`convert_arguments`] runs before `Invoking` and leaves for the
//! generic signal on a failed conversion; [`conclude`] takes the outcome of `Invoking`
//! (`Succeeded` converts the value back, or goes to the generic signal; `Failed` resolves
//! the exception class); [`after_signal`] ends a signalling path in `ReturnValue` with the
//! sentinel, or in `FatalAbort` when the signal itself failed.
use vstd::prelude::*;
use crate::model::{NativeModel, NativeValue, SemanticType, BaseType, WireModel, WireScalar, WireValue};
use crate::registry::{ConversionError, JniToolboxError, class_of_error, message_of_error};
use crate::convert::{decode_value, encode_value, from_java_static, into_java_static, native_result, wire_result};
use crate::wrapper::{ExceptionPolicy, ParamSource, WrapperSpec};

verus! {

/// A failure of the wrapped function: the exception class it names and a diagnostic message.
#[derive(Clone, Debug)]
pub struct InnerFailure {
    pub class: String,
    pub message: String,
}

impl InnerFailure {
    /// The failure of an error value that names its own class.
    pub fn of_error<E: JniToolboxError>(e: &E, message: String) -> (r: InnerFailure)
        ensures
            r.message == message,
    {
        InnerFailure { class: e.jclass(), message }
    }
}

/// What the entry point does next.
#[derive(Clone, Debug, PartialEq, Eq)]
pub enum Action {
    /// Return the converted value: the call succeeded.
    Return(WireValue),
    /// Signal an exception of `class` carrying `message`, then return `sentinel`.
    Signal { class: String, message: String, sentinel: WireScalar },
}

pub enum ActionModel {
    Return(WireModel),
    Signal { class: Seq<char>, message: Seq<char>, sentinel: WireScalar },
}

impl View for Action {
    type V = ActionModel;

    open spec fn view(&self) -> ActionModel {
        match self {
            Action::Return(w) => ActionModel::Return(w@),
            Action::Signal { class, message, sentinel } => ActionModel::Signal {
                class: class@,
                message: message@,
                sentinel: *sentinel,
            },
        }
    }
}

/// The step of signalling an exception that failed.
#[derive(Clone, Copy, Debug, PartialEq, Eq, Structural)]
pub enum SignalFailure {
    ClassLookup,
    MessageConstruction,
    ObjectConstruction,
    Throw,
}

/// How a call ends.
#[derive(Clone, Debug, PartialEq, Eq)]
pub enum Terminal {
    ReturnValue(WireValue),
    /// Signalling failed: no normal return is allowed, so the process aborts.
    FatalAbort(SignalFailure),
}

pub enum TerminalModel {
    ReturnValue(WireModel),
    FatalAbort(SignalFailure),
}

impl View for Terminal {
    type V = TerminalModel;

    open spec fn view(&self) -> TerminalModel {
        match self {
            Terminal::ReturnValue(w) => TerminalModel::ReturnValue(w@),
            Terminal::FatalAbort(f) => TerminalModel::FatalAbort(*f),
        }
    }
}

/// The native type a planned parameter is read as; a class handle passes through as an
/// object.
pub open spec fn param_type(s: ParamSource) -> SemanticType {
    match s {
        ParamSource::ClassHandle => SemanticType::Base(BaseType::Object),
        ParamSource::Converted(rule) => rule.native,
    }
}

/// The signal for a conversion failure, on the generic path.
pub open spec fn generic_signal(e: ConversionError, sentinel: WireScalar) -> ActionModel {
    ActionModel::Signal { class: class_of_error(e), message: message_of_error(e), sentinel }
}

/// The translation of the wrapped function's outcome.
pub open spec fn conclude_spec(w: WrapperSpec, outcome: Result<NativeModel, InnerFailure>) -> ActionModel {
    match outcome {
        Ok(v) => match encode_value(w.return_rule.native, v) {
            Ok(wv) => ActionModel::Return(wv),
            Err(e) => generic_signal(e, w.sentinel),
        },
        Err(f) => ActionModel::Signal {
            class: match w.exception {
                Some(ExceptionPolicy::Fixed(c)) => c@,
                _ => f.class@,
            },
            message: f.message@,
            sentinel: w.sentinel,
        },
    }
}

/// How a call ends once the exception was, or could not be, signalled.
pub open spec fn after_signal_spec(sentinel: WireScalar, signalled: Result<(), SignalFailure>) -> TerminalModel {
    match signalled {
        Ok(()) => TerminalModel::ReturnValue(WireModel::Scalar(sentinel)),
        Err(f) => TerminalModel::FatalAbort(f),
    }
}

/// The view of an outcome of the wrapped function.
pub open spec fn outcome_view(o: Result<NativeValue, InnerFailure>) -> Result<NativeModel, InnerFailure> {
    match o {
        Ok(v) => Ok(v@),
        Err(f) => Err(f),
    }
}

/// The prologue: converts the boundary arguments of the planned parameters, in order.
/// The first failure stops the call before the wrapped function runs, and signals the
/// failure's exception with the sentinel.
pub fn convert_arguments(w: &WrapperSpec, args: &Vec<WireValue>) -> (r: Result<Vec<NativeValue>, Action>)
    requires
        args@.len() == w.plan.params@.len(),
    ensures
        match r {
            Ok(vs) => {
                &&& vs@.len() == args@.len()
                &&& forall|k: int|
                    0 <= k < args@.len() ==> decode_value(param_type(w.plan.params@[k].source), args@[k]@)
                        == Ok::<NativeModel, ConversionError>(#[trigger] vs@[k]@)
            },
            Err(a) => exists|k: int|
                0 <= k < args@.len() && (forall|j: int|
                    0 <= j < k ==> (#[trigger] decode_value(param_type(w.plan.params@[j].source), args@[j]@)) is Ok)
                    && (#[trigger] decode_value(param_type(w.plan.params@[k].source), args@[k]@)) is Err
                    && a@ == generic_signal(
                    decode_value(param_type(w.plan.params@[k].source), args@[k]@)->Err_0,
                    w.sentinel,
                ),
        },
{
    let mut out: Vec<NativeValue> = Vec::new();
    let mut i: usize = 0;
    while i < args.len()
        invariant
            args@.len() == w.plan.params@.len(),
            i <= args@.len(),
            out@.len() == i,
            forall|k: int|
                0 <= k < i ==> decode_value(param_type(w.plan.params@[k].source), args@[k]@)
                    == Ok::<NativeModel, ConversionError>(#[trigger] out@[k]@),
        decreases args@.len() - i,
    {
        let t = match w.plan.params[i].source {
            ParamSource::ClassHandle => SemanticType::Base(BaseType::Object),
            ParamSource::Converted(rule) => rule.native,
        };
        match from_java_static(t, &args[i]) {
            Ok(v) => out.push(v),
            Err(e) => {
                let a = Action::Signal { class: e.exception_class(), message: e.message(), sentinel: w.sentinel.duplicate() };
                proof {
                    assert(decode_value(param_type(w.plan.params@[i as int].source), args@[i as int]@) is Err);
                    assert forall|j: int| 0 <= j < i implies (#[trigger] decode_value(
                        param_type(w.plan.params@[j].source),
                        args@[j]@,
                    )) is Ok by {
                        assert(decode_value(param_type(w.plan.params@[j].source), args@[j]@)
                            == Ok::<NativeModel, ConversionError>(out@[j]@));
                    }
                }
                return Err(a);
            },
        }
        i = i + 1;
    }
    Ok(out)
}

/// Translates the wrapped function's outcome: a success value is converted back (a
/// failure to convert it signals on the generic path); a failure is signalled with the
/// configured class, or the class it names, and the sentinel.
pub fn conclude(w: &WrapperSpec, outcome: Result<NativeValue, InnerFailure>) -> (r: Action)
    requires
        outcome is Err ==> w.exception is Some,
    ensures
        r@ == conclude_spec(*w, outcome_view(outcome)),
{
    match outcome {
        Ok(v) => match into_java_static(w.return_rule.native, &v) {
            Ok(wv) => Action::Return(wv),
            Err(e) => Action::Signal { class: e.exception_class(), message: e.message(), sentinel: w.sentinel.duplicate() },
        },
        Err(f) => {
            let class = match &w.exception {
                Some(ExceptionPolicy::Fixed(c)) => c.clone(),
                _ => f.class,
            };
            Action::Signal { class, message: f.message, sentinel: w.sentinel.duplicate() }
        },
    }
}

/// Ends a call after an exception was signalled: the sentinel is returned, unless the
/// signal itself failed, which aborts.
pub fn after_signal(sentinel: &WireScalar, signalled: Result<(), SignalFailure>) -> (r: Terminal)
    ensures
        r@ == after_signal_spec(*sentinel, signalled),
{
    match signalled {
        Ok(()) => Terminal::ReturnValue(WireValue::Scalar(sentinel.duplicate())),
        Err(f) => Terminal::FatalAbort(f),
    }
}

/// A failed call of the wrapped function never returns a converted value: its exception is
/// signalled and the call returns the sentinel of its return type, or aborts if the
/// signal fails; whatever the failure holds, the value returned is the same.
pub proof fn lemma_failure_returns_sentinel(
    w: WrapperSpec,
    f: InnerFailure,
    signalled: Result<(), SignalFailure>,
)
    ensures
        match conclude_spec(w, Err(f)) {
            ActionModel::Signal { sentinel, .. } => {
                &&& sentinel == w.sentinel
                &&& after_signal_spec(sentinel, signalled) == match signalled {
                    Ok(()) => TerminalModel::ReturnValue(WireModel::Scalar(w.sentinel)),
                    Err(x) => TerminalModel::FatalAbort(x),
                }
            },
            ActionModel::Return(_) => false,
        },
{
}

} // verus!
