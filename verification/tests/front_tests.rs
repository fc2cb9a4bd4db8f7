use rustus::front::{compile_attrs, extract_enum_path, rust_type_to_type_hint, CompileCtx, Registration, RustType};
use rustus::pre_sir::TypeHint;
use rustus::sir_type::SIRType;

fn ty(text: &str, path: &[&str], args: Vec<RustType>) -> RustType {
    RustType { text: text.to_string(), path: path.iter().map(|s| s.to_string()).collect(), args }
}

#[test]
fn fresh_names_count_up_and_resolve_innermost_first() {
    let mut ctx = CompileCtx::new();
    assert_eq!(ctx.fresh_var("x"), "x");
    assert_eq!(ctx.resolve_var("x"), "x");
    ctx.push_scope();
    assert_eq!(ctx.fresh_var("x"), "x_1");
    assert_eq!(ctx.resolve_var("x"), "x_1");
    assert_eq!(ctx.fresh_var("x"), "x_2");
    assert_eq!(ctx.resolve_var("x"), "x_2");
    ctx.pop_scope();
    assert_eq!(ctx.resolve_var("x"), "x");
    assert_eq!(ctx.resolve_var("unbound"), "unbound");
    assert_eq!(ctx.fresh_var("y"), "y");
}

#[test]
fn type_hints_of_rust_types() {
    let gps = vec!["T".to_string(), "U".to_string()];
    assert!(matches!(rust_type_to_type_hint(&ty("bool", &["bool"], vec![]), &gps), TypeHint::Bool));
    assert!(matches!(rust_type_to_type_hint(&ty("BigInt", &["BigInt"], vec![]), &gps), TypeHint::Integer));
    assert!(matches!(rust_type_to_type_hint(&ty("Vec<u8>", &["Vec"], vec![]), &gps), TypeHint::ByteString));
    assert!(matches!(rust_type_to_type_hint(&ty("()", &[], vec![]), &gps), TypeHint::Unit));
    match rust_type_to_type_hint(&ty("U", &["U"], vec![]), &gps) {
        TypeHint::TypeParam { name, index } => {
            assert_eq!(name, "U");
            assert_eq!(index, 2);
        }
        _ => panic!("expected a type parameter"),
    }
    let list_of_t = ty("List<T>", &["prelude", "List"], vec![ty("T", &["T"], vec![])]);
    match rust_type_to_type_hint(&list_of_t, &gps) {
        TypeHint::Named { rust_path, type_args } => {
            assert_eq!(rust_path, "prelude::List");
            assert_eq!(type_args.len(), 1);
            assert!(matches!(&type_args[0], TypeHint::TypeParam { index: 1, .. }));
        }
        _ => panic!("expected a named type"),
    }
    match rust_type_to_type_hint(&ty("&str", &[], vec![]), &gps) {
        TypeHint::Named { rust_path, type_args } => {
            assert_eq!(rust_path, "unknown");
            assert!(type_args.is_empty());
        }
        _ => panic!("expected a named type"),
    }
}

#[test]
fn builtin_generic_and_repeated_types_are_not_registered() {
    let mut ctx = CompileCtx::new();
    ctx.generic_type_params.push("T".to_string());
    assert!(!ctx.register_rust_type("bool"));
    assert!(!ctx.register_rust_type("num_bigint::BigInt"));
    assert!(!ctx.register_rust_type("T"));
    assert!(ctx.register_rust_type("MyDatum"));
    assert!(!ctx.register_rust_type("MyDatum"));
    assert_eq!(ctx.type_registrations.len(), 1);
    assert!(matches!(&ctx.type_registrations[0], Registration::TypeInfo { rust_type } if rust_type == "MyDatum"));
    ctx.register_var_type("x_1", "MyDatum");
    assert!(matches!(&ctx.type_registrations[1], Registration::Var { name, rust_type } if name == "x_1" && rust_type == "MyDatum"));
}

#[test]
fn known_sir_types() {
    let mut ctx = CompileCtx::new();
    ctx.generic_type_params.push("A".to_string());
    assert_eq!(ctx.known_sir_type("i64"), Some(SIRType::Integer));
    assert_eq!(ctx.known_sir_type("rustus_core::data::Data"), Some(SIRType::Data));
    assert_eq!(
        ctx.known_sir_type("A"),
        Some(SIRType::TypeVar { name: "A".to_string(), opt_id: Some(1), is_builtin: false })
    );
    assert_eq!(ctx.known_sir_type("MyDatum"), None);
}

#[test]
fn enum_paths_split_into_declaration_and_constructor() {
    let segs = |v: &[&str]| v.iter().map(|s| s.to_string()).collect::<Vec<String>>();
    assert_eq!(extract_enum_path(&segs(&["crate", "Action", "Spend"])), ("Action".to_string(), "Action::Spend".to_string()));
    assert_eq!(extract_enum_path(&segs(&["None"])), ("None".to_string(), "None".to_string()));
    assert_eq!(extract_enum_path(&segs(&[])), ("unknown".to_string(), "unknown".to_string()));
}

#[test]
fn compile_attributes_take_module_and_name() {
    let args = vec![
        ("module".to_string(), "my.Mod".to_string()),
        ("other".to_string(), "x".to_string()),
        ("name".to_string(), "validate".to_string()),
    ];
    assert_eq!(compile_attrs(&args), (Some("my.Mod".to_string()), Some("validate".to_string())));
    assert_eq!(compile_attrs(&vec![]), (None, None));
}
