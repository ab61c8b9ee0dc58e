use jni_toolbox::model::{BaseType, BoundaryType, SemanticType, WireScalar};
use jni_toolbox::options::{parse_options, unquoted, AttrToken, ConfigError};
use jni_toolbox::registry::ForwardPolicy;
use jni_toolbox::signature::{
    build_return, build_signature, semantic_type_of, Brackets, ParamSyntax, Representation, ReturnKind, Role,
    SignatureError, TypeShape, TypeSyntax,
};
use jni_toolbox::symbol::{check_identifier, check_qualified_name, symbol_name};
use jni_toolbox::wrapper::{plan, synthesize, ExportConfig, ParamSource};

fn ty(shape: TypeShape, name: &str, brackets: Brackets, args: Vec<TypeSyntax>) -> TypeSyntax {
    TypeSyntax { shape, name: name.to_string(), brackets, lifetimes: 0, args, other_args: 0 }
}

fn path(name: &str) -> TypeSyntax {
    ty(TypeShape::Path, name, Brackets::Bare, vec![])
}

fn generic(name: &str, args: Vec<TypeSyntax>) -> TypeSyntax {
    ty(TypeShape::Path, name, Brackets::Angle, args)
}

fn env_ref() -> TypeSyntax {
    let mut t = ty(TypeShape::Reference, "JNIEnv", Brackets::Angle, vec![]);
    t.lifetimes = 1;
    t
}

fn param(name: &str, ty: TypeSyntax) -> ParamSyntax {
    ParamSyntax::Typed { name: name.to_string(), ty }
}

fn config(ns: &str, class: &str) -> ExportConfig {
    ExportConfig {
        namespace: Some(ns.to_string()),
        class: Some(class.to_string()),
        exception_class: None,
        returns_reference: None,
        inline: false,
    }
}

#[test]
fn symbol_escapes_underscores_and_dots() {
    assert_eq!(symbol_name("toolbox", "Main", "sum"), "Boundary_toolbox_Main_sum");
    assert_eq!(symbol_name("toolbox", "Main", "to_vec"), "Boundary_toolbox_Main_to_1vec");
    assert_eq!(symbol_name("com.example.app", "My_Class", "a__b"), "Boundary_com_example_app_My_1Class_a_1_1b");
    assert_ne!(symbol_name("a.b", "c", "d"), symbol_name("a", "b_c", "d"));
    assert_ne!(symbol_name("a", "b", "c_d"), symbol_name("a", "b_c", "d"));
}

#[test]
fn name_validation() {
    assert!(check_identifier("to_vec"));
    assert!(!check_identifier(""));
    assert!(!check_identifier("1abc"));
    assert!(!check_identifier("a.b"));
    assert!(check_qualified_name("com.example"));
    assert!(!check_qualified_name("com..example"));
    assert!(!check_qualified_name("com."));
    assert!(!check_qualified_name("com.1x"));
}

#[test]
fn semantic_types_of_declared_types() {
    assert_eq!(semantic_type_of(&path("i32")), SemanticType::Base(BaseType::Int));
    assert_eq!(semantic_type_of(&path("String")), SemanticType::Base(BaseType::Text));
    assert_eq!(semantic_type_of(&env_ref()), SemanticType::ContextHandle);
    assert_eq!(semantic_type_of(&path("JClass")), SemanticType::ClassHandle);
    assert_eq!(semantic_type_of(&generic("Option", vec![path("String")])), SemanticType::Optional(BaseType::Text));
    assert_eq!(semantic_type_of(&generic("Vec", vec![path("i64")])), SemanticType::Sequence(BaseType::Long));
    let nested = generic("Vec", vec![generic("Option", vec![path("String")])]);
    assert_eq!(semantic_type_of(&nested), SemanticType::Unsupported);
    assert_eq!(semantic_type_of(&path("HashMap")), SemanticType::Unsupported);
}

#[test]
fn return_kinds() {
    let void = build_return(&None).unwrap();
    assert_eq!(void.kind, ReturnKind::Void);
    assert_eq!(void.representation, Representation::Primitive);
    let value = build_return(&Some(path("String"))).unwrap();
    assert_eq!(value.kind, ReturnKind::Value);
    assert_eq!(value.representation, Representation::ObjectReference);
    let fallible = build_return(&Some(generic("Result", vec![path("i64"), path("E")]))).unwrap();
    assert_eq!(fallible.kind, ReturnKind::Fallible);
    assert_eq!(fallible.inner, SemanticType::Base(BaseType::Long));
    assert_eq!(fallible.representation, Representation::Primitive);
}

#[test]
fn return_errors() {
    assert_eq!(build_return(&Some(path("Result"))), Err(SignatureError::ResultWithoutArguments));
    let paren = ty(TypeShape::Path, "Result", Brackets::Parenthesized, vec![]);
    assert_eq!(build_return(&Some(paren)), Err(SignatureError::ParenthesizedResult));
    assert_eq!(build_return(&Some(generic("Result", vec![]))), Err(SignatureError::AmbiguousResult));
    let three = generic("Result", vec![path("i32"), path("E"), path("F")]);
    assert_eq!(build_return(&Some(three)), Err(SignatureError::AmbiguousResult));
    let never = ty(TypeShape::Never, "", Brackets::Bare, vec![]);
    assert_eq!(build_return(&Some(never)), Err(SignatureError::UnsupportedReturn));
}

#[test]
fn parameter_errors() {
    let r = build_signature("m", &vec![ParamSyntax::Receiver, param("a", path("i32"))], &None);
    assert_eq!(r.err(), Some(SignatureError::MethodNotExportable));
    let r = build_signature("m", &vec![param("a", path("i32")), ParamSyntax::Destructured], &Some(path("Result")));
    assert_eq!(r.err(), Some(SignatureError::UnsupportedPattern));
}

#[test]
fn parameters_keep_declaration_order() {
    let sig = build_signature("f", &vec![param("x", path("i8")), param("y", path("bool")), param("z", path("String"))], &None)
        .unwrap();
    let names: Vec<&str> = sig.params.iter().map(|p| p.name.as_str()).collect();
    assert_eq!(names, vec!["x", "y", "z"]);
    assert_eq!(sig.params[1].ty, SemanticType::Base(BaseType::Boolean));
    assert!(sig.params.iter().all(|p| p.role == Role::Value));
}

#[test]
fn plan_injects_context_and_class() {
    let sig = build_signature("f", &vec![param("a", path("i32"))], &None).unwrap();
    let p = plan(&sig).unwrap();
    assert_eq!(p.context_name, "env");
    assert!(!p.context_forwarded);
    assert!(p.class_injected);
    assert_eq!(p.params.len(), 1);
    match p.params[0].source {
        ParamSource::Converted(rule) => {
            assert_eq!(rule.boundary, BoundaryType::Int);
            assert_eq!(rule.forward, ForwardPolicy::PassThrough);
        },
        ParamSource::ClassHandle => panic!("expected a conversion"),
    }
}

#[test]
fn plan_uses_declared_handles() {
    let params = vec![param("env", env_ref()), param("class", path("JClass")), param("s", path("String"))];
    let sig = build_signature("f", &params, &None).unwrap();
    assert_eq!(sig.params[0].role, Role::ContextHandle);
    let p = plan(&sig).unwrap();
    assert_eq!(p.context_name, "env");
    assert!(p.context_forwarded);
    assert!(!p.class_injected);
    assert_eq!(p.params.len(), 2);
    assert_eq!(p.params[0].source, ParamSource::ClassHandle);
    assert_eq!(p.params[1].name, "s");
}

#[test]
fn plan_rejects_unsupported_parameters() {
    let sig = build_signature("f", &vec![param("a", generic("Option", vec![path("i32")]))], &None).unwrap();
    assert_eq!(plan(&sig).err(), Some(SignatureError::UnsupportedType));
    let sig = build_signature("f", &vec![param("a", path("i32")), param("env", env_ref())], &None).unwrap();
    assert_eq!(plan(&sig).err(), Some(SignatureError::UnsupportedType));
}

#[test]
fn synthesis_errors() {
    let sig = build_signature("f", &vec![], &Some(path("String"))).unwrap();
    let mut cfg = config("toolbox", "Main");
    cfg.namespace = None;
    assert_eq!(synthesize(&sig, &cfg).err(), Some(SignatureError::MissingNamespace));
    let mut cfg = config("toolbox", "Main");
    cfg.class = None;
    assert_eq!(synthesize(&sig, &cfg).err(), Some(SignatureError::MissingClass));
    assert_eq!(synthesize(&sig, &config("tool..box", "Main")).err(), Some(SignatureError::InvalidName));
    assert_eq!(synthesize(&sig, &config("toolbox", "9Main")).err(), Some(SignatureError::InvalidName));
    let mut cfg = config("toolbox", "Main");
    cfg.returns_reference = Some(false);
    assert_eq!(synthesize(&sig, &cfg).err(), Some(SignatureError::RepresentationMismatch));
    let bad_ret = build_signature("f", &vec![], &Some(path("HashMap"))).unwrap();
    assert_eq!(synthesize(&bad_ret, &config("toolbox", "Main")).err(), Some(SignatureError::UnsupportedType));
}

#[test]
fn sentinels_fit_return_types() {
    let cases = vec![
        (Some(path("i32")), WireScalar::Int(0), BoundaryType::Int),
        (Some(path("bool")), WireScalar::Boolean(0), BoundaryType::Boolean),
        (Some(path("char")), WireScalar::Char(0), BoundaryType::Char),
        (Some(path("String")), WireScalar::Null, BoundaryType::ObjectRef),
        (Some(generic("Vec", vec![path("i32")])), WireScalar::Null, BoundaryType::PrimitiveArray(BaseType::Int)),
        (None, WireScalar::Void, BoundaryType::Void),
    ];
    for (ret, sentinel, boundary) in cases {
        let sig = build_signature("f", &vec![], &ret).unwrap();
        let w = synthesize(&sig, &config("toolbox", "Main")).unwrap();
        assert_eq!(w.sentinel, sentinel);
        assert_eq!(w.return_rule.boundary, boundary);
        assert_eq!(w.exception, None);
    }
}

#[test]
fn options_from_attribute_tokens() {
    let tokens = vec![
        AttrToken::Ident("package".to_string()),
        AttrToken::Other,
        AttrToken::Literal("\"com.example\"".to_string()),
        AttrToken::Other,
        AttrToken::Ident("class".to_string()),
        AttrToken::Other,
        AttrToken::Literal("\"Main\"".to_string()),
        AttrToken::Other,
        AttrToken::Ident("exception".to_string()),
        AttrToken::Other,
        AttrToken::Literal("\"toolbox/Failure\"".to_string()),
        AttrToken::Ident("ptr".to_string()),
        AttrToken::Ident("inline".to_string()),
    ];
    let cfg = parse_options(&tokens).unwrap();
    assert_eq!(cfg.namespace, Some("com.example".to_string()));
    assert_eq!(cfg.class, Some("Main".to_string()));
    assert_eq!(cfg.exception_class, Some("toolbox/Failure".to_string()));
    assert_eq!(cfg.returns_reference, Some(true));
    assert!(cfg.inline);
}

#[test]
fn options_errors_and_defaults() {
    assert_eq!(parse_options(&vec![AttrToken::Ident("pkg".to_string())]).err(), Some(ConfigError::UnexpectedOption));
    let cfg = parse_options(&vec![]).unwrap();
    assert_eq!(cfg.namespace, None);
    assert_eq!(cfg.returns_reference, None);
    assert!(!cfg.inline);
    assert_eq!(unquoted("\"a\"b\""), "ab");
}

#[test]
fn options_under_their_long_names() {
    let tokens = vec![
        AttrToken::Ident("namespace".to_string()),
        AttrToken::Literal("\"toolbox\"".to_string()),
        AttrToken::Ident("class".to_string()),
        AttrToken::Literal("\"Main\"".to_string()),
        AttrToken::Ident("exceptionClass".to_string()),
        AttrToken::Literal("\"toolbox/Failure\"".to_string()),
        AttrToken::Ident("returnsReference".to_string()),
    ];
    let cfg = parse_options(&tokens).unwrap();
    assert_eq!(cfg.namespace, Some("toolbox".to_string()));
    assert_eq!(cfg.exception_class, Some("toolbox/Failure".to_string()));
    assert_eq!(cfg.returns_reference, Some(true));
}
