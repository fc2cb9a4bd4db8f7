use rustus::module::AnnotationsDecl;
use rustus::name_map::NameMap;
use rustus::sir::SIR;
use rustus::sir_type::{DataDecl, SIRType};
use rustus::typing::{type_sir, verify_complete};

fn var(name: &str, tp: SIRType) -> SIR {
    SIR::Var { name: name.to_string(), tp, anns: AnnotationsDecl::empty() }
}

#[test]
fn lambda_parameter_types_its_uses() {
    let mut sir = SIR::LamAbs {
        param: Box::new(var("x", SIRType::Integer)),
        term: Box::new(var("x", SIRType::Unresolved)),
        type_params: vec![],
        anns: AnnotationsDecl::empty(),
    };
    let st: NameMap<DataDecl> = NameMap::new();
    assert!(type_sir(&mut sir, &st).is_ok());
    match &sir {
        SIR::LamAbs { term, .. } => match term.as_ref() {
            SIR::Var { tp, .. } => assert!(matches!(tp, SIRType::Integer)),
            _ => panic!("expected a variable"),
        },
        _ => panic!("expected a lambda"),
    }
    assert!(verify_complete(&sir).is_ok());
}

#[test]
fn unknown_variable_is_reported() {
    let mut sir = var("y", SIRType::Unresolved);
    let st: NameMap<DataDecl> = NameMap::new();
    let errs = type_sir(&mut sir, &st).unwrap_err();
    assert_eq!(errs.len(), 1);
    let errs = verify_complete(&sir).unwrap_err();
    assert_eq!(errs.len(), 1);
    match &errs[0].kind {
        rustus::typing::TypingErrorKind::UnresolvedType { context } => assert_eq!(context, "variable 'y'"),
        _ => panic!("expected an unresolved type"),
    }
}
