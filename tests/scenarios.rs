use jni_toolbox::model::{NativeValue, Scalar, WireScalar, WireValue};
use jni_toolbox::registry::JniToolboxError;
use jni_toolbox::signature::{build_signature, Brackets, ParamSyntax, TypeShape, TypeSyntax};
use jni_toolbox::translate::{after_signal, conclude, convert_arguments, Action, InnerFailure, SignalFailure, Terminal};
use jni_toolbox::wrapper::{synthesize, ExceptionPolicy, ExportConfig, WrapperSpec};

fn path(name: &str) -> TypeSyntax {
    TypeSyntax {
        shape: TypeShape::Path,
        name: name.to_string(),
        brackets: Brackets::Bare,
        lifetimes: 0,
        args: vec![],
        other_args: 0,
    }
}

fn generic(name: &str, args: Vec<TypeSyntax>) -> TypeSyntax {
    TypeSyntax {
        shape: TypeShape::Path,
        name: name.to_string(),
        brackets: Brackets::Angle,
        lifetimes: 0,
        args,
        other_args: 0,
    }
}

fn unit() -> TypeSyntax {
    TypeSyntax {
        shape: TypeShape::Tuple,
        name: String::new(),
        brackets: Brackets::Bare,
        lifetimes: 0,
        args: vec![],
        other_args: 0,
    }
}

fn param(name: &str, ty: TypeSyntax) -> ParamSyntax {
    ParamSyntax::Typed { name: name.to_string(), ty }
}

fn toolbox_main() -> ExportConfig {
    ExportConfig {
        namespace: Some("toolbox".to_string()),
        class: Some("Main".to_string()),
        exception_class: None,
        returns_reference: None,
        inline: false,
    }
}

fn export(name: &str, params: Vec<ParamSyntax>, ret: Option<TypeSyntax>) -> WrapperSpec {
    let sig = build_signature(name, &params, &ret).unwrap();
    synthesize(&sig, &toolbox_main()).unwrap()
}

fn text(s: &str) -> WireValue {
    WireValue::Scalar(WireScalar::Str(s.to_string()))
}

#[derive(Debug)]
struct CustomError;

impl JniToolboxError for CustomError {
    fn jclass(&self) -> String {
        "toolbox/CustomException".to_string()
    }
}

#[test]
fn scenario_sum_returns_five() {
    let w = export("sum", vec![param("a", path("i32")), param("b", path("i32"))], Some(path("i32")));
    assert_eq!(w.symbol, "Boundary_toolbox_Main_sum");
    let args = vec![WireValue::Scalar(WireScalar::Int(2)), WireValue::Scalar(WireScalar::Int(3))];
    let natives = convert_arguments(&w, &args).unwrap();
    let sum = match (&natives[0], &natives[1]) {
        (NativeValue::Single(Scalar::Int(a)), NativeValue::Single(Scalar::Int(b))) => a + b,
        other => panic!("unexpected arguments {:?}", other),
    };
    let action = conclude(&w, Ok(NativeValue::Single(Scalar::Int(sum))));
    assert_eq!(action, Action::Return(WireValue::Scalar(WireScalar::Int(5))));
}

#[test]
fn scenario_concat_null_signals_without_invoking() {
    let w = export("concat", vec![param("a", path("String")), param("b", path("String"))], Some(path("String")));
    let args = vec![WireValue::Scalar(WireScalar::Null), text("b")];
    let action = match convert_arguments(&w, &args) {
        Ok(_) => panic!("the wrapped function must not be invoked"),
        Err(a) => a,
    };
    assert_eq!(
        action,
        Action::Signal {
            class: "java/lang/NullPointerException".to_string(),
            message: "null reference where a value was required".to_string(),
            sentinel: WireScalar::Null,
        }
    );
    assert_eq!(after_signal(&WireScalar::Null, Ok(())), Terminal::ReturnValue(WireValue::Scalar(WireScalar::Null)));
}

#[test]
fn scenario_concat_joins_texts() {
    let w = export("concat", vec![param("a", path("String")), param("b", path("String"))], Some(path("String")));
    let natives = convert_arguments(&w, &vec![text("x"), text("y")]).unwrap();
    let joined = match (&natives[0], &natives[1]) {
        (NativeValue::Single(Scalar::Text(a)), NativeValue::Single(Scalar::Text(b))) => format!("{a} -- {b}"),
        other => panic!("unexpected arguments {:?}", other),
    };
    let action = conclude(&w, Ok(NativeValue::Single(Scalar::Text(joined))));
    assert_eq!(action, Action::Return(text("x -- y")));
}

#[test]
fn scenario_throw_error_signals_custom_class() {
    let w = export("throw_error", vec![], Some(generic("Result", vec![unit(), path("CustomError")])));
    assert_eq!(w.symbol, "Boundary_toolbox_Main_throw_1error");
    assert_eq!(w.exception, Some(ExceptionPolicy::SelfDescribed));
    let natives = convert_arguments(&w, &vec![]).unwrap();
    assert!(natives.is_empty());
    let failure = InnerFailure::of_error(&CustomError, "some test error".to_string());
    let action = conclude(&w, Err(failure));
    assert_eq!(
        action,
        Action::Signal {
            class: "toolbox/CustomException".to_string(),
            message: "some test error".to_string(),
            sentinel: WireScalar::Void,
        }
    );
    assert_eq!(after_signal(&WireScalar::Void, Ok(())), Terminal::ReturnValue(WireValue::Scalar(WireScalar::Void)));
}

#[test]
fn scenario_to_vec_keeps_order() {
    let ret = generic("Vec", vec![path("String")]);
    let w = export("to_vec", vec![param("a", path("String")), param("b", path("String")), param("c", path("String"))], Some(ret));
    assert_eq!(w.symbol, "Boundary_toolbox_Main_to_1vec");
    let natives = convert_arguments(&w, &vec![text("x"), text("y"), text("z")]).unwrap();
    let elems: Vec<Scalar> = natives
        .into_iter()
        .map(|v| match v {
            NativeValue::Single(s) => s,
            other => panic!("unexpected argument {:?}", other),
        })
        .collect();
    let action = conclude(&w, Ok(NativeValue::Sequence(elems)));
    assert_eq!(
        action,
        Action::Return(WireValue::ObjectArray(vec![
            WireScalar::Str("x".to_string()),
            WireScalar::Str("y".to_string()),
            WireScalar::Str("z".to_string()),
        ]))
    );
}

#[test]
fn failure_with_fixed_exception_class() {
    let sig = build_signature("fails", &vec![], &Some(generic("Result", vec![path("i32"), path("E")]))).unwrap();
    let mut cfg = toolbox_main();
    cfg.exception_class = Some("toolbox/Fixed".to_string());
    let w = synthesize(&sig, &cfg).unwrap();
    assert_eq!(w.exception, Some(ExceptionPolicy::Fixed("toolbox/Fixed".to_string())));
    let failure = InnerFailure { class: "toolbox/Other".to_string(), message: "boom".to_string() };
    let action = conclude(&w, Err(failure));
    assert_eq!(
        action,
        Action::Signal { class: "toolbox/Fixed".to_string(), message: "boom".to_string(), sentinel: WireScalar::Int(0) }
    );
}

#[test]
fn failed_signal_aborts() {
    assert_eq!(after_signal(&WireScalar::Int(0), Err(SignalFailure::ClassLookup)), Terminal::FatalAbort(SignalFailure::ClassLookup));
    assert_eq!(after_signal(&WireScalar::Null, Err(SignalFailure::Throw)), Terminal::FatalAbort(SignalFailure::Throw));
}

#[test]
fn return_conversion_failure_signals_generic() {
    let w = export("wide", vec![], Some(path("char")));
    let action = conclude(&w, Ok(NativeValue::Single(Scalar::Char('\u{1F600}'))));
    assert_eq!(
        action,
        Action::Signal {
            class: "java/lang/RuntimeException".to_string(),
            message: "invalid character".to_string(),
            sentinel: WireScalar::Char(0),
        }
    );
}

#[test]
fn optional_round_through_wrapper() {
    let w = export("maybe", vec![param("idk", generic("Option", vec![path("String")]))], Some(path("bool")));
    let natives = convert_arguments(&w, &vec![WireValue::Scalar(WireScalar::Null)]).unwrap();
    assert_eq!(natives, vec![NativeValue::Optional(None)]);
    let action = conclude(&w, Ok(NativeValue::Single(Scalar::Boolean(false))));
    assert_eq!(action, Action::Return(WireValue::Scalar(WireScalar::Boolean(0))));
    let w = export("optional", vec![param("present", path("bool"))], Some(generic("Option", vec![path("String")])));
    let action = conclude(&w, Ok(NativeValue::Optional(None)));
    assert_eq!(action, Action::Return(WireValue::Scalar(WireScalar::Null)));
    let action = conclude(&w, Ok(NativeValue::Optional(Some(Scalar::Text("hello world!".to_string())))));
    assert_eq!(action, Action::Return(text("hello world!")));
}
